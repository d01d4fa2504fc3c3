use passthrough_proxy::error::{ProtocolError, RelayFault};
use passthrough_proxy::relay::{BodyRelay, RelayEvent, RelayPhase};

/// Moves `source` through a relay: reads of at most `read_size` bytes, a sink
/// that accepts at most `write_size` bytes at a time. Returns what the sink got.
fn transfer(source: &[u8], read_size: usize, write_size: usize, late_end: bool) -> (BodyRelay, Vec<u8>) {
    let mut relay = BodyRelay::new();
    let mut sink: Vec<u8> = Vec::new();
    let mut cursor = 0;
    loop {
        match relay.phase() {
            RelayPhase::Reading => {
                let upto = usize::min(source.len(), cursor + read_size);
                let bytes = source[cursor..upto].to_vec();
                let end = if late_end { cursor == source.len() } else { upto == source.len() };
                cursor = upto;
                relay.advance(RelayEvent::Chunk { bytes, end }).unwrap();
            }
            RelayPhase::Writing => {
                let pending = relay.pending();
                let accepted = usize::min(pending.len(), write_size);
                sink.extend_from_slice(&pending[..accepted]);
                relay.advance(RelayEvent::Written { accepted: accepted as u64 }).unwrap();
            }
            RelayPhase::Finished | RelayPhase::Failed(_) => return (relay, sink),
        }
    }
}

#[test]
fn new_relay_waits_for_a_read() {
    let relay = BodyRelay::new();
    assert_eq!(relay.phase(), RelayPhase::Reading);
    assert!(relay.pending().is_empty());
}

#[test]
fn empty_source_finishes_at_once_and_writes_nothing() {
    let mut relay = BodyRelay::new();
    let phase = relay.advance(RelayEvent::Chunk { bytes: Vec::new(), end: true });
    assert_eq!(phase, Ok(RelayPhase::Finished));
    assert!(relay.pending().is_empty());
    let (relay, sink) = transfer(b"", 16, 16, false);
    assert_eq!(relay.phase(), RelayPhase::Finished);
    assert!(sink.is_empty());
}

#[test]
fn single_chunk_is_delivered_exactly() {
    let mut relay = BodyRelay::new();
    assert_eq!(
        relay.advance(RelayEvent::Chunk { bytes: b"payload".to_vec(), end: true }),
        Ok(RelayPhase::Writing)
    );
    assert_eq!(relay.pending(), b"payload");
    assert_eq!(relay.advance(RelayEvent::Written { accepted: 7 }), Ok(RelayPhase::Finished));
    assert!(relay.pending().is_empty());
}

#[test]
fn partial_writes_keep_the_rest_pending_in_order() {
    let mut relay = BodyRelay::new();
    relay.advance(RelayEvent::Chunk { bytes: b"abcdefgh".to_vec(), end: false }).unwrap();
    assert_eq!(relay.advance(RelayEvent::Written { accepted: 3 }), Ok(RelayPhase::Writing));
    assert_eq!(relay.pending(), b"defgh");
    assert_eq!(relay.advance(RelayEvent::Written { accepted: 0 }), Ok(RelayPhase::Writing));
    assert_eq!(relay.pending(), b"defgh");
    assert_eq!(relay.advance(RelayEvent::Written { accepted: 4 }), Ok(RelayPhase::Writing));
    assert_eq!(relay.pending(), b"h");
    assert_eq!(relay.advance(RelayEvent::Written { accepted: 1 }), Ok(RelayPhase::Reading));
    assert!(relay.pending().is_empty());
}

#[test]
fn empty_chunk_without_end_keeps_reading() {
    let mut relay = BodyRelay::new();
    assert_eq!(
        relay.advance(RelayEvent::Chunk { bytes: Vec::new(), end: false }),
        Ok(RelayPhase::Reading)
    );
    assert_eq!(
        relay.advance(RelayEvent::Chunk { bytes: b"x".to_vec(), end: false }),
        Ok(RelayPhase::Writing)
    );
    assert_eq!(relay.advance(RelayEvent::Written { accepted: 1 }), Ok(RelayPhase::Reading));
    assert_eq!(
        relay.advance(RelayEvent::Chunk { bytes: Vec::new(), end: true }),
        Ok(RelayPhase::Finished)
    );
}

#[test]
fn large_source_in_many_chunks_is_byte_exact() {
    let source: Vec<u8> = (0..100_000u32).map(|i| (i * 31 % 251) as u8).collect();
    for (read_size, write_size) in [(4096, 4096), (4096, 1000), (7, 3), (100_000, 1), (65_536, 100_000)] {
        let (relay, sink) = transfer(&source, read_size, write_size, false);
        assert_eq!(relay.phase(), RelayPhase::Finished);
        assert_eq!(sink.len(), 100_000);
        assert_eq!(sink, source);
    }
}

#[test]
fn source_read_byte_by_byte_is_byte_exact() {
    let source: Vec<u8> = (0..5_000u32).map(|i| (i % 256) as u8).collect();
    let (relay, sink) = transfer(&source, 1, 1, false);
    assert_eq!(relay.phase(), RelayPhase::Finished);
    assert_eq!(sink, source);
}

#[test]
fn end_signalled_after_the_last_bytes_is_byte_exact_too() {
    let source: Vec<u8> = (0..10_000u32).map(|i| (i % 256) as u8).collect();
    let (relay, sink) = transfer(&source, 512, 100, true);
    assert_eq!(relay.phase(), RelayPhase::Finished);
    assert_eq!(sink, source);
}

#[test]
fn read_failure_aborts_the_transfer() {
    let mut relay = BodyRelay::new();
    relay.advance(RelayEvent::Chunk { bytes: b"ab".to_vec(), end: false }).unwrap();
    relay.advance(RelayEvent::Written { accepted: 2 }).unwrap();
    assert_eq!(
        relay.advance(RelayEvent::ReadFailed),
        Ok(RelayPhase::Failed(RelayFault::Read))
    );
    assert_eq!(relay.phase(), RelayPhase::Failed(RelayFault::Read));
}

#[test]
fn write_failure_aborts_the_transfer() {
    let mut relay = BodyRelay::new();
    relay.advance(RelayEvent::Chunk { bytes: b"abc".to_vec(), end: true }).unwrap();
    relay.advance(RelayEvent::Written { accepted: 1 }).unwrap();
    assert_eq!(
        relay.advance(RelayEvent::WriteFailed),
        Ok(RelayPhase::Failed(RelayFault::Write))
    );
    assert_eq!(relay.pending(), b"bc");
}

#[test]
fn sink_that_claims_too_much_aborts_the_transfer() {
    let mut relay = BodyRelay::new();
    relay.advance(RelayEvent::Chunk { bytes: b"abc".to_vec(), end: true }).unwrap();
    assert_eq!(
        relay.advance(RelayEvent::Written { accepted: 4 }),
        Ok(RelayPhase::Failed(RelayFault::Overrun))
    );
    let mut relay = BodyRelay::new();
    relay.advance(RelayEvent::Chunk { bytes: b"abc".to_vec(), end: true }).unwrap();
    assert_eq!(
        relay.advance(RelayEvent::Written { accepted: u64::MAX }),
        Ok(RelayPhase::Failed(RelayFault::Overrun))
    );
}

#[test]
fn relay_refuses_events_that_answer_nothing() {
    let mut relay = BodyRelay::new();
    assert!(!relay.accepts(&RelayEvent::Written { accepted: 0 }));
    assert!(!relay.accepts(&RelayEvent::WriteFailed));
    assert!(relay.accepts(&RelayEvent::ReadFailed));
    assert_eq!(
        relay.advance(RelayEvent::Written { accepted: 0 }),
        Err(ProtocolError::UnexpectedEvent)
    );
    assert_eq!(relay.advance(RelayEvent::WriteFailed), Err(ProtocolError::UnexpectedEvent));
    assert_eq!(relay.phase(), RelayPhase::Reading);

    relay.advance(RelayEvent::Chunk { bytes: b"abc".to_vec(), end: false }).unwrap();
    assert!(!relay.accepts(&RelayEvent::Chunk { bytes: b"zz".to_vec(), end: false }));
    assert_eq!(
        relay.advance(RelayEvent::Chunk { bytes: b"zz".to_vec(), end: false }),
        Err(ProtocolError::UnexpectedEvent)
    );
    assert_eq!(relay.advance(RelayEvent::ReadFailed), Err(ProtocolError::UnexpectedEvent));
    assert_eq!(relay.phase(), RelayPhase::Writing);
    assert_eq!(relay.pending(), b"abc");
}

#[test]
fn finished_or_failed_relay_takes_nothing_more() {
    let (mut relay, _) = transfer(b"done", 2, 2, false);
    assert_eq!(relay.phase(), RelayPhase::Finished);
    for event in [
        RelayEvent::Chunk { bytes: b"more".to_vec(), end: false },
        RelayEvent::ReadFailed,
        RelayEvent::Written { accepted: 0 },
        RelayEvent::WriteFailed,
    ] {
        assert_eq!(relay.advance(event), Err(ProtocolError::UnexpectedEvent));
    }
    assert_eq!(relay.phase(), RelayPhase::Finished);

    let mut failed = BodyRelay::new();
    failed.advance(RelayEvent::ReadFailed).unwrap();
    assert_eq!(
        failed.advance(RelayEvent::Chunk { bytes: Vec::new(), end: true }),
        Err(ProtocolError::UnexpectedEvent)
    );
    assert_eq!(failed.phase(), RelayPhase::Failed(RelayFault::Read));
}
