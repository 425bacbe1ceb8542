use vstd::prelude::*;

verus! {

/// What the handlers read of a block header, as plain values.
#[derive(Debug, Clone)]
pub struct BlockHeaderData {
    pub commitment: Vec<u8>,
    /// The block commitment in hex (`0x`-prefixed).
    pub commitment_hex: String,
    pub block_number: u32,
    pub version: u32,
    pub timestamp: u32,
    pub chain_commitment: Vec<u8>,
    pub account_root: Vec<u8>,
    pub nullifier_root: Vec<u8>,
    pub note_root: Vec<u8>,
    pub tx_commitment: Vec<u8>,
    pub tx_kernel_commitment: Vec<u8>,
    pub sub_commitment: Vec<u8>,
}

/// Why a block could not be turned into rows.
#[derive(Debug, Clone, Copy, PartialEq, Eq, Structural)]
pub enum HandlerError {
    /// A position or a count within the block does not fit in a `u32`.
    IndexOutOfRange,
    /// A fungible asset amount does not fit in an `i64`.
    AmountOutOfRange,
}

/// Positions and counts within a block are stored as `u32`.
pub open spec fn fits_u32(n: int) -> bool {
    0 <= n <= u32::MAX
}

/// Every position below `len` fits in a `u32`.
pub open spec fn positions_fit_u32(len: int) -> bool {
    len <= 0x1_0000_0000
}

} // verus!
