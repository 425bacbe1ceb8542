use vstd::prelude::*;

verus! {

/// Seconds between two polls of the node's chain tip: the gauge is updated every second.
pub const POLL_INTERVAL_SECS: u64 = 1;

/// The chain tip read from a status reply of the node: `status` is the reply's store chain
/// tip (`None` where the reply has no store), or the message of the error the status call
/// failed with.
pub fn latest_block_number(status: Result<Option<u32>, String>) -> (r: Result<u32, String>)
    ensures
        match status {
            Ok(Some(tip)) => r == Ok::<u32, String>(tip),
            Ok(None) => r matches Err(m) && m@ == "RPC store status error: missing store"@,
            Err(e) => r matches Err(m) && m@ == "Could not get latest block number: "@ + e@,
        },
{
    match status {
        Ok(Some(tip)) => Ok(tip),
        Ok(None) => Err(String::from_str("RPC store status error: missing store")),
        Err(e) => {
            let mut m = String::from_str("Could not get latest block number: ");
            m.append(e.as_str());
            Err(m)
        },
    }
}

} // verus!
