use vstd::prelude::*;

use crate::db::models::{
    DatabaseTransaction, DatabaseTransactionInputNote, DatabaseTransactionOutputNote,
};
use crate::db::models::DatabaseAccountUpdate;
use crate::indexer::handlers::account::{is_update_row, UpdatedAccountData};
use crate::indexer::handlers::block_data::{positions_fit_u32, BlockHeaderData, HandlerError};
use crate::utils::internal_time::{get_internal_time, internal_time};
use crate::utils::text::join_id;

verus! {

/// A note consumed by a transaction: its serialized commitment and its nullifier in hex.
#[derive(Debug, Clone)]
pub struct InputNoteData {
    pub bytes: Vec<u8>,
    pub nullifier_hex: String,
}

/// A note created by a transaction: its serialized header and its id in hex.
#[derive(Debug, Clone)]
pub struct OutputNoteHeaderData {
    pub bytes: Vec<u8>,
    pub note_id_hex: String,
}

/// What the handlers read of a transaction header, as plain values.
#[derive(Debug, Clone)]
pub struct TransactionData {
    pub id: Vec<u8>,
    pub id_hex: String,
    pub account_bech: String,
    pub initial_state_commitment: Vec<u8>,
    pub final_state_commitment: Vec<u8>,
    pub input_notes: Vec<InputNoteData>,
    pub output_notes: Vec<OutputNoteHeaderData>,
}

/// The rows that the transactions of a block produce.
#[derive(Debug, Clone)]
pub struct TransactionRows {
    pub transactions: Vec<DatabaseTransaction>,
    pub input_notes: Vec<DatabaseTransactionInputNote>,
    pub output_notes: Vec<DatabaseTransactionOutputNote>,
}

/// The row of the `index`-th transaction of the block.
pub open spec fn is_transaction_row(
    row: DatabaseTransaction,
    header: BlockHeaderData,
    tx: TransactionData,
    index: int,
) -> bool {
    &&& row.transaction_id@ == tx.id@
    &&& row.account_update_id@ == tx.account_bech@ + "_"@ + header.commitment_hex@
    &&& row.account_bech@ == tx.account_bech@
    &&& row.block_number == header.block_number
    &&& row.timestamp == header.timestamp
    &&& row.transaction_index == index
    &&& row.initial_state_commitment@ == tx.initial_state_commitment@
    &&& row.final_state_commitment@ == tx.final_state_commitment@
    &&& row.internal_time == internal_time(header.block_number, index as u32, 0)
}

/// A transaction row names the update row that the account handler writes, in the same
/// block, for the account that made the transaction: the two rows join on
/// `account_update_id`.
pub proof fn lemma_transaction_joins_account_update(
    header: BlockHeaderData,
    tx: TransactionData,
    row: DatabaseTransaction,
    index: int,
    acc: UpdatedAccountData,
    update: DatabaseAccountUpdate,
    update_index: int,
)
    requires
        is_transaction_row(row, header, tx, index),
        is_update_row(update, header, acc, update_index),
        acc.account_bech@ == tx.account_bech@,
    ensures
        row.account_update_id@ == update.account_update_id@,
{
}

/// (id, transaction id, nullifier) of an input-note row.
pub open spec fn input_row_view(r: DatabaseTransactionInputNote) -> (Seq<char>, Seq<u8>, Seq<u8>) {
    (r.transaction_input_note_id@, r.transaction_id@, r.nullifier@)
}

/// (id, transaction id, note id) of an output-note row.
pub open spec fn output_row_view(r: DatabaseTransactionOutputNote) -> (Seq<char>, Seq<u8>, Seq<u8>) {
    (r.transaction_output_note_id@, r.transaction_id@, r.note_id@)
}

/// The input-note rows of the transactions, transaction by transaction, each note in order:
/// `{transaction id}_{nullifier}`.
pub open spec fn input_rows_of(txs: Seq<TransactionData>) -> Seq<(Seq<char>, Seq<u8>, Seq<u8>)>
    decreases txs.len(),
{
    if txs.len() == 0 {
        Seq::empty()
    } else {
        let tx = txs.last();
        input_rows_of(txs.drop_last()) + tx.input_notes@.map_values(
            |n: InputNoteData| (tx.id_hex@ + "_"@ + n.nullifier_hex@, tx.id@, n.bytes@),
        )
    }
}

/// The output-note rows of the transactions, transaction by transaction, each note in
/// order: `{transaction id}_{note id}`.
pub open spec fn output_rows_of(txs: Seq<TransactionData>) -> Seq<(Seq<char>, Seq<u8>, Seq<u8>)>
    decreases txs.len(),
{
    if txs.len() == 0 {
        Seq::empty()
    } else {
        let tx = txs.last();
        output_rows_of(txs.drop_last()) + tx.output_notes@.map_values(
            |n: OutputNoteHeaderData| (tx.id_hex@ + "_"@ + n.note_id_hex@, tx.id@, n.bytes@),
        )
    }
}

/// One `transaction` row per transaction of the block, in order, and one row per note that
/// each consumes and creates.
pub fn transaction_rows(header: &BlockHeaderData, txs: &Vec<TransactionData>) -> (r: Result<
    TransactionRows,
    HandlerError,
>)
    ensures
        !positions_fit_u32(txs.len() as int) <==> r is Err,
        r is Err ==> r == Err::<TransactionRows, HandlerError>(HandlerError::IndexOutOfRange),
        r matches Ok(rows) ==> {
            &&& rows.transactions.len() == txs.len()
            &&& forall|i: int|
                0 <= i < txs.len() ==> is_transaction_row(
                    #[trigger] rows.transactions@[i],
                    *header,
                    txs@[i],
                    i,
                )
            &&& rows.input_notes@.map_values(|n: DatabaseTransactionInputNote| input_row_view(n))
                == input_rows_of(txs@)
            &&& rows.output_notes@.map_values(|n: DatabaseTransactionOutputNote| output_row_view(n))
                == output_rows_of(txs@)
        },
{
    let mut transactions: Vec<DatabaseTransaction> = Vec::new();
    let mut input_notes: Vec<DatabaseTransactionInputNote> = Vec::new();
    let mut output_notes: Vec<DatabaseTransactionOutputNote> = Vec::new();
    for i in 0..txs.len()
        invariant
            transactions.len() == i,
            i <= 0x1_0000_0000,
            forall|k: int|
                0 <= k < i ==> is_transaction_row(#[trigger] transactions@[k], *header, txs@[k], k),
            input_notes@.map_values(|n: DatabaseTransactionInputNote| input_row_view(n))
                == input_rows_of(txs@.take(i as int)),
            output_notes@.map_values(|n: DatabaseTransactionOutputNote| output_row_view(n))
                == output_rows_of(txs@.take(i as int)),
    {
        if i as u64 > 0xFFFF_FFFF {
            return Err(HandlerError::IndexOutOfRange);
        }
        let index = i as u32;
        let tx = &txs[i];
        assert(txs@.take(i + 1).drop_last() == txs@.take(i as int));
        assert(txs@.take(i + 1).last() == tx);
        transactions.push(
            DatabaseTransaction {
                transaction_id: tx.id.clone(),
                account_update_id: join_id(tx.account_bech.as_str(), header.commitment_hex.as_str()),
                account_bech: tx.account_bech.clone(),
                block_number: header.block_number,
                timestamp: header.timestamp,
                transaction_index: index,
                initial_state_commitment: tx.initial_state_commitment.clone(),
                final_state_commitment: tx.final_state_commitment.clone(),
                internal_time: get_internal_time(header.block_number, index, 0),
            },
        );
        let ghost in_base = input_notes@.map_values(
            |n: DatabaseTransactionInputNote| input_row_view(n),
        );
        for j in 0..tx.input_notes.len()
            invariant
                input_notes@.map_values(|n: DatabaseTransactionInputNote| input_row_view(n))
                    == in_base + tx.input_notes@.take(j as int).map_values(
                    |n: InputNoteData| (tx.id_hex@ + "_"@ + n.nullifier_hex@, tx.id@, n.bytes@),
                ),
        {
            let note = &tx.input_notes[j];
            let row = DatabaseTransactionInputNote {
                transaction_input_note_id: join_id(tx.id_hex.as_str(), note.nullifier_hex.as_str()),
                transaction_id: tx.id.clone(),
                nullifier: note.bytes.clone(),
            };
            assert(input_row_view(row) == (tx.id_hex@ + "_"@ + note.nullifier_hex@, tx.id@, note.bytes@));
            let ghost before = input_notes@;
            input_notes.push(row);
            assert(input_notes@.map_values(|n: DatabaseTransactionInputNote| input_row_view(n))
                =~= before.map_values(|n: DatabaseTransactionInputNote| input_row_view(n)).push(
                input_row_view(row)));
            assert(tx.input_notes@.take(j + 1) == tx.input_notes@.take(j as int).push(*note));
            assert(input_notes@.map_values(|n: DatabaseTransactionInputNote| input_row_view(n))
                =~= in_base + tx.input_notes@.take(j + 1).map_values(
                |n: InputNoteData| (tx.id_hex@ + "_"@ + n.nullifier_hex@, tx.id@, n.bytes@),
            ));
        }
        assert(tx.input_notes@.take(tx.input_notes.len() as int) == tx.input_notes@);
        let ghost out_base = output_notes@.map_values(
            |n: DatabaseTransactionOutputNote| output_row_view(n),
        );
        for j in 0..tx.output_notes.len()
            invariant
                output_notes@.map_values(|n: DatabaseTransactionOutputNote| output_row_view(n))
                    == out_base + tx.output_notes@.take(j as int).map_values(
                    |n: OutputNoteHeaderData| (tx.id_hex@ + "_"@ + n.note_id_hex@, tx.id@, n.bytes@),
                ),
        {
            let note = &tx.output_notes[j];
            let row = DatabaseTransactionOutputNote {
                transaction_output_note_id: join_id(tx.id_hex.as_str(), note.note_id_hex.as_str()),
                transaction_id: tx.id.clone(),
                note_id: note.bytes.clone(),
            };
            assert(output_row_view(row) == (tx.id_hex@ + "_"@ + note.note_id_hex@, tx.id@, note.bytes@));
            let ghost before = output_notes@;
            output_notes.push(row);
            assert(output_notes@.map_values(|n: DatabaseTransactionOutputNote| output_row_view(n))
                =~= before.map_values(|n: DatabaseTransactionOutputNote| output_row_view(n)).push(
                output_row_view(row)));
            assert(tx.output_notes@.take(j + 1) == tx.output_notes@.take(j as int).push(*note));
            assert(output_notes@.map_values(|n: DatabaseTransactionOutputNote| output_row_view(n))
                =~= out_base + tx.output_notes@.take(j + 1).map_values(
                |n: OutputNoteHeaderData| (tx.id_hex@ + "_"@ + n.note_id_hex@, tx.id@, n.bytes@),
            ));
        }
        assert(tx.output_notes@.take(tx.output_notes.len() as int) == tx.output_notes@);
    }
    assert(txs@.take(txs.len() as int) == txs@);
    Ok(TransactionRows { transactions, input_notes, output_notes })
}

} // verus!
