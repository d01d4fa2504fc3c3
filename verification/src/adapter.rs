//! The two adapters: each rebuilds a descriptor for the other side of the
//! proxy, field by field, and changes nothing.

use crate::descriptor::{copy_scheme, copy_text, RequestDescriptor, ResponseDescriptor};
use vstd::prelude::*;

verus! {

/// Builds the request that goes to the backend.
pub struct RequestAdapter;

impl RequestAdapter {
    /// The outbound request for `inbound`: a fresh descriptor with the same
    /// method, path and query, scheme, authority and header entries, the
    /// entries in the same order.
    pub fn adapt(inbound: &RequestDescriptor) -> (outbound: RequestDescriptor)
        ensures
            outbound@ == inbound@,
    {
        RequestDescriptor::new(
            inbound.method().clone(),
            copy_text(inbound.path_with_query()),
            copy_scheme(inbound.scheme()),
            copy_text(inbound.authority()),
            inbound.headers().clone(),
        )
    }
}

/// Builds the response that goes to the caller.
pub struct ResponseAdapter;

impl ResponseAdapter {
    /// The outbound response for `backend`: a fresh descriptor with the same
    /// status and header entries, the entries in the same order.
    pub fn adapt(backend: &ResponseDescriptor) -> (outbound: ResponseDescriptor)
        ensures
            outbound@ == backend@,
    {
        ResponseDescriptor::new(backend.status(), backend.headers().clone())
    }
}

} // verus!
