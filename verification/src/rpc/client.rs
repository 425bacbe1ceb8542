use vstd::prelude::*;

verus! {

/// A client of the Miden node's RPC endpoint.
#[derive(Debug, Clone)]
pub struct Rpc {
    pub rpc_url: String,
}

/// Seconds after which an RPC call is given up.
pub const RPC_TIMEOUT_SECS: u64 = 20;

impl Rpc {
    pub fn new(url: &str) -> (r: Self)
        ensures
            r.rpc_url@ == url@,
    {
        Rpc { rpc_url: url.to_owned() }
    }
}

} // verus!
