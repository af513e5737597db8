//! The two kinds of message carried by the transport. Their content is
//! opaque here: the transport only moves them.

use vstd::prelude::*;

verus! {

/// A server-to-client request.
#[derive(Clone, Debug, PartialEq, Eq)]
pub struct Request {
    pub id: u64,
    pub method: String,
}

/// A client-to-server response, answering the request with the same `id`.
#[derive(Clone, Debug, PartialEq, Eq)]
pub struct Response {
    pub id: u64,
    pub result: String,
}

} // verus!
