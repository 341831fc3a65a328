use vstd::prelude::*;

verus! {

/// The single parameter of every order method: the order, serialized and
/// written as a hex string.
#[derive(Debug, Clone)]
pub struct ByteRec {
    pub data: String,
}

/// What the server answers once a request has been queued.
#[derive(Debug, Clone)]
pub struct RequestResponse {
    pub msg: String,
    pub id_key: String,
}

impl RequestResponse {
    /// A response carrying `msg` for the request identified by `id_key`.
    pub fn new(msg: String, id_key: String) -> (r: Self)
        ensures
            r.msg@ == msg@,
            r.id_key@ == id_key@,
    {
        RequestResponse { msg, id_key }
    }
}

} // verus!
