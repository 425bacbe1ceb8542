use vstd::prelude::*;

use crate::config::MidenNetwork;

verus! {

/// The label under which the indexer's metrics are reported.
pub const NETWORK_LABEL: &'static str = "network";

/// The value of the `network` label for a network.
pub fn network_label(network: MidenNetwork) -> (r: &'static str)
    ensures
        r@ == match network {
            MidenNetwork::Mainnet => "mainnet"@,
            MidenNetwork::Testnet => "testnet"@,
            MidenNetwork::Devnet => "devnet"@,
        },
{
    match network {
        MidenNetwork::Mainnet => "mainnet",
        MidenNetwork::Testnet => "testnet",
        MidenNetwork::Devnet => "devnet",
    }
}

/// The value the block gauges are set to (`block_number as i64`).
pub fn block_gauge_value(block_number: u32) -> (r: i64)
    ensures
        r == block_number,
{
    block_number as i64
}

} // verus!
