use vstd::prelude::*;

use crate::utils::text::{decimal, push_decimal};

verus! {

/// Errors of the RPC client.
#[derive(Debug, Clone)]
pub enum RpcError {
    /// The named call did not finish in time.
    Timeout(&'static str),
    /// The node has no block with this number yet.
    NotFound(u32),
    Unknown(String),
}

impl RpcError {
    /// The characters of the error's message.
    pub open spec fn message_view(&self) -> Seq<char> {
        match self {
            RpcError::Timeout(ctx) => "timeout: "@ + ctx@,
            RpcError::NotFound(block) => "block not found: "@ + decimal(*block as nat),
            RpcError::Unknown(msg) => "unknown error: "@ + msg@,
        }
    }

    /// The error's message: `timeout: ..`, `block not found: ..` or `unknown error: ..`.
    pub fn message(&self) -> (r: String)
        ensures
            r@ == self.message_view(),
    {
        match self {
            RpcError::Timeout(ctx) => {
                let mut s = String::from_str("timeout: ");
                s.append(ctx);
                s
            },
            RpcError::NotFound(block) => {
                let mut s = String::from_str("block not found: ");
                push_decimal(&mut s, *block as u64);
                s
            },
            RpcError::Unknown(msg) => {
                let mut s = String::from_str("unknown error: ");
                s.append(msg.as_str());
                s
            },
        }
    }

    /// Whether the error only means that the next block is not there yet.
    pub fn is_not_found(&self) -> (r: bool)
        ensures
            r == (self is NotFound),
    {
        match self {
            RpcError::NotFound(_) => true,
            _ => false,
        }
    }
}

} // verus!
