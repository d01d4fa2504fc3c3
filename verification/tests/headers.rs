use passthrough_proxy::headers::{names_match, HeaderCollection};

fn sample() -> HeaderCollection {
    let mut headers = HeaderCollection::new();
    headers.append("Accept".to_string(), b"text/html".to_vec());
    headers.append("X-Test".to_string(), b"1".to_vec());
    headers.append("accept".to_string(), b"text/plain".to_vec());
    headers.append("ACCEPT".to_string(), b"*/*".to_vec());
    headers
}

#[test]
fn new_collection_is_empty() {
    let headers = HeaderCollection::new();
    assert!(headers.is_empty());
    assert_eq!(headers.len(), 0);
    assert_eq!(headers.get("anything"), Vec::<Vec<u8>>::new());
}

#[test]
fn append_keeps_insertion_order() {
    let headers = sample();
    assert_eq!(headers.len(), 4);
    assert!(!headers.is_empty());
    let names: Vec<&str> = headers.entries().iter().map(|e| e.0.as_str()).collect();
    assert_eq!(names, vec!["Accept", "X-Test", "accept", "ACCEPT"]);
}

#[test]
fn get_ignores_letter_case_and_keeps_order_of_duplicates() {
    let headers = sample();
    let expected = vec![b"text/html".to_vec(), b"text/plain".to_vec(), b"*/*".to_vec()];
    assert_eq!(headers.get("accept"), expected);
    assert_eq!(headers.get("ACCEPT"), expected);
    assert_eq!(headers.get("AcCePt"), expected);
    assert_eq!(headers.get("x-test"), vec![b"1".to_vec()]);
}

#[test]
fn get_of_absent_name_is_empty() {
    let headers = sample();
    assert_eq!(headers.get("Content-Type"), Vec::<Vec<u8>>::new());
    assert_eq!(headers.get("Accep"), Vec::<Vec<u8>>::new());
    assert_eq!(headers.get("Accept "), Vec::<Vec<u8>>::new());
    assert_eq!(headers.get(""), Vec::<Vec<u8>>::new());
}

#[test]
fn names_match_folds_ascii_capitals_only() {
    assert!(names_match("Content-Type", "content-type"));
    assert!(names_match("CONTENT-TYPE", "cOnTeNt-TyPe"));
    assert!(names_match("", ""));
    assert!(!names_match("Content-Type", "Content_Type"));
    assert!(!names_match("a", "ab"));
    // '@' (64) and '[' (91) border the capitals; '`' (96) and '{' (123) the small letters.
    assert!(!names_match("@", "`"));
    assert!(!names_match("[", "{"));
    assert!(names_match("AZ", "az"));
    // Letters outside ASCII are not folded.
    assert!(!names_match("É", "é"));
    assert!(names_match("é", "é"));
}

#[test]
fn from_entries_and_into_entries_round_trip() {
    let entries = vec![
        ("Content-Type".to_string(), b"text/plain".to_vec()),
        ("Set-Cookie".to_string(), b"a=1".to_vec()),
        ("Set-Cookie".to_string(), b"b=2".to_vec()),
    ];
    let headers = HeaderCollection::from_entries(entries.clone());
    assert_eq!(headers.len(), 3);
    assert_eq!(headers.entries(), &entries);
    assert_eq!(headers.get("set-cookie"), vec![b"a=1".to_vec(), b"b=2".to_vec()]);
    assert_eq!(headers.into_entries(), entries);
}

#[test]
fn clone_is_equal_and_independent() {
    let first = sample();
    let mut copy = first.clone();
    assert_eq!(copy, first);
    copy.append("Extra".to_string(), b"x".to_vec());
    assert_eq!(first.len(), 4);
    assert_eq!(copy.len(), 5);
    assert_eq!(first.get("extra"), Vec::<Vec<u8>>::new());
}

#[test]
fn header_values_are_bytes_not_text() {
    let mut headers = HeaderCollection::new();
    headers.append("X-Bin".to_string(), vec![0, 255, 128, 10]);
    assert_eq!(headers.get("x-bin"), vec![vec![0u8, 255, 128, 10]]);
}
