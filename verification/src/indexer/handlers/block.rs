use vstd::prelude::*;

use crate::db::models::DatabaseBlock;
use crate::indexer::handlers::block_data::{fits_u32, BlockHeaderData, HandlerError};

verus! {

/// The `block` row of a block with `number_of_transactions` transactions.
pub fn block_row(header: &BlockHeaderData, number_of_transactions: usize) -> (r: Result<
    DatabaseBlock,
    HandlerError,
>)
    ensures
        !fits_u32(number_of_transactions as int) <==> r == Err::<DatabaseBlock, HandlerError>(
            HandlerError::IndexOutOfRange,
        ),
        r matches Ok(b) ==> {
            &&& b.block_commitment@ == header.commitment@
            &&& b.block_number == header.block_number
            &&& b.version == header.version
            &&& b.timestamp == header.timestamp
            &&& b.chain_commitment@ == header.chain_commitment@
            &&& b.account_root@ == header.account_root@
            &&& b.nullifier_root@ == header.nullifier_root@
            &&& b.note_root@ == header.note_root@
            &&& b.tx_commitment@ == header.tx_commitment@
            &&& b.proof_commitment@ == header.tx_kernel_commitment@
            &&& b.sub_commitment@ == header.sub_commitment@
            &&& b.number_of_transactions == number_of_transactions
        },
{
    if number_of_transactions as u64 > 0xFFFF_FFFF {
        return Err(HandlerError::IndexOutOfRange);
    }
    Ok(DatabaseBlock {
        block_commitment: header.commitment.clone(),
        block_number: header.block_number,
        version: header.version,
        timestamp: header.timestamp,
        chain_commitment: header.chain_commitment.clone(),
        account_root: header.account_root.clone(),
        nullifier_root: header.nullifier_root.clone(),
        note_root: header.note_root.clone(),
        tx_commitment: header.tx_commitment.clone(),
        proof_commitment: header.tx_kernel_commitment.clone(),
        sub_commitment: header.sub_commitment.clone(),
        number_of_transactions: number_of_transactions as u32,
    })
}

} // verus!
