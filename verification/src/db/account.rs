use vstd::prelude::*;

verus! {

/// A public account indexed before code commitments were recorded.
#[derive(Debug, Clone)]
pub struct AccountMissingCodeCommitment {
    pub account_bech: String,
    pub account_id: Vec<u8>,
    pub deployed_at_block_number: u32,
}

} // verus!
