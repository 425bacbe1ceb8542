use vstd::prelude::*;

use crate::db::models::DatabaseNullifier;
use crate::indexer::handlers::block_data::{positions_fit_u32, BlockHeaderData, HandlerError};
use crate::utils::internal_time::{get_internal_time, internal_time};

verus! {

/// The row of the `index`-th nullifier created in the block.
pub open spec fn is_nullifier_row(
    row: DatabaseNullifier,
    header: BlockHeaderData,
    nullifier: Seq<u8>,
    index: int,
) -> bool {
    &&& row.nullifier@ == nullifier
    &&& row.nullifier_index == index
    &&& row.block_number == header.block_number
    &&& row.timestamp == header.timestamp
    &&& row.internal_time == internal_time(header.block_number, index as u32, 0)
}

/// One `nullifier` row per nullifier created in the block, in order; the row's position is
/// its index.
pub fn nullifier_rows(header: &BlockHeaderData, nullifiers: &Vec<Vec<u8>>) -> (r: Result<
    Vec<DatabaseNullifier>,
    HandlerError,
>)
    ensures
        !positions_fit_u32(nullifiers.len() as int) <==> r is Err,
        r is Err ==> r == Err::<Vec<DatabaseNullifier>, HandlerError>(HandlerError::IndexOutOfRange),
        r matches Ok(rows) ==> rows.len() == nullifiers.len() && forall|i: int|
            0 <= i < rows.len() ==> is_nullifier_row(
                #[trigger] rows@[i],
                *header,
                nullifiers@[i]@,
                i,
            ),
{
    let mut rows: Vec<DatabaseNullifier> = Vec::new();
    for i in 0..nullifiers.len()
        invariant
            rows.len() == i,
            i <= 0x1_0000_0000,
            forall|k: int|
                0 <= k < i ==> is_nullifier_row(#[trigger] rows@[k], *header, nullifiers@[k]@, k),
    {
        if i as u64 > 0xFFFF_FFFF {
            return Err(HandlerError::IndexOutOfRange);
        }
        let index = i as u32;
        rows.push(
            DatabaseNullifier {
                nullifier: nullifiers[i].clone(),
                nullifier_index: index,
                block_number: header.block_number,
                timestamp: header.timestamp,
                internal_time: get_internal_time(header.block_number, index, 0),
            },
        );
    }
    Ok(rows)
}

} // verus!
