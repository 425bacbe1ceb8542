use vstd::prelude::*;

use crate::db::models::DatabaseRef;
use crate::rpc::error::RpcError;
use crate::utils::text::{decimal, push_decimal};

verus! {

/// Milliseconds the indexing loop waits after a failed round before the next one.
pub const RETRY_DELAY_MS: u64 = 500;

/// One more than a recorded block number, reinterpreted as unsigned.
pub open spec fn next_block_number(ref_block_number: i32) -> int {
    if ref_block_number + 1 >= 0 {
        ref_block_number + 1
    } else {
        ref_block_number + 1 + 0x1_0000_0000
    }
}

/// A block number as the database records it: reinterpreted as signed.
pub open spec fn stored_block_number(block_number: u32) -> int {
    if block_number <= i32::MAX {
        block_number as int
    } else {
        block_number - 0x1_0000_0000
    }
}

/// The number of the block to index after the recorded one, as the RPC call takes it: one
/// more than the recorded number, reinterpreted as unsigned (`(n + 1) as u32`).
pub fn next_block_to_index(ref_block_number: i32) -> (r: u32)
    requires
        ref_block_number < i32::MAX,
    ensures
        r as int == next_block_number(ref_block_number),
{
    let next: i32 = ref_block_number + 1;
    if next >= 0 {
        next as u32
    } else {
        let magnitude: u32 = (-(next as i64)) as u32;
        assert(magnitude >= 1);
        (u32::MAX - magnitude) + 1
    }
}

/// The reference recorded after a block was indexed: its commitment and its number as the
/// database stores it (`block_number as i32`, so numbers above `i32::MAX` wrap around).
pub fn indexed_ref(block_commitment: Vec<u8>, block_number: u32) -> (r: DatabaseRef)
    ensures
        r.block_commitment == block_commitment,
        r.block_number as int == stored_block_number(block_number),
{
    let number: i32 = if block_number <= i32::MAX as u32 {
        block_number as i32
    } else {
        let below: u32 = u32::MAX - block_number;
        -1i32 - (below as i32)
    };
    DatabaseRef { block_commitment, block_number: number }
}

/// After block `n` is recorded, the next block to index is `n + 1` (after the largest
/// number, 0). Block `i32::MAX` is left out: one more than its recorded number overflows.
pub proof fn lemma_next_block_follows_indexed(n: u32)
    requires
        n != i32::MAX,
    ensures
        i32::MIN <= stored_block_number(n) < i32::MAX,
        next_block_number(stored_block_number(n) as i32) == (n + 1) % 0x1_0000_0000,
{
}

/// How loudly a failed round is logged.
#[derive(Debug, Clone, Copy, PartialEq, Eq, Structural)]
pub enum LogLevel {
    Info,
    Error,
}

/// The log line for a round that failed with an RPC error: a missing block only means that
/// the chain has not reached it yet and is logged as information; any other RPC error is
/// logged as an error, with the error's message.
pub fn rpc_failure_log(e: &RpcError) -> (r: (LogLevel, String))
    ensures
        match e {
            RpcError::NotFound(block) => r.0 == LogLevel::Info && r.1@ == "Waiting for next block: "@
                + decimal(*block as nat),
            _ => r.0 == LogLevel::Error && r.1@ == "RPC Error: "@ + e.message_view(),
        },
{
    match e {
        RpcError::NotFound(block) => {
            let mut s = String::from_str("Waiting for next block: ");
            push_decimal(&mut s, *block as u64);
            (LogLevel::Info, s)
        },
        _ => {
            let mut s = String::from_str("RPC Error: ");
            let m = e.message();
            s.append(m.as_str());
            (LogLevel::Error, s)
        },
    }
}

} // verus!
