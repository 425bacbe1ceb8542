use vstd::prelude::*;

use crate::indexer::handlers::storage_decoder::DecodedPayload;

verus! {

/// The last indexed block.
#[derive(Debug, Clone)]
pub struct DatabaseRef {
    pub block_commitment: Vec<u8>,
    pub block_number: i32,
}

#[derive(Debug, Clone)]
pub struct DatabaseBlock {
    pub block_commitment: Vec<u8>,
    pub block_number: u32,
    pub version: u32,
    pub timestamp: u32,
    pub chain_commitment: Vec<u8>,
    pub account_root: Vec<u8>,
    pub nullifier_root: Vec<u8>,
    pub note_root: Vec<u8>,
    pub tx_commitment: Vec<u8>,
    pub proof_commitment: Vec<u8>,
    pub sub_commitment: Vec<u8>,
    pub number_of_transactions: u32,
}

#[derive(Debug, Clone)]
pub struct DatabaseAccount {
    pub account_bech: String,
    pub account_id: Vec<u8>,
    pub account_id_prefix: Vec<u8>,
    pub account_type: Option<DatabaseMidenAccountType>,
    pub storage_mode: DatabaseMidenAccountStorageMode,
    pub code: Option<String>,
    pub code_size: u64,
    pub code_procedure_roots: Option<Vec<String>>,
    pub code_commitment: Option<String>,
    pub deployed_at_block_number: u32,
    pub deployed_at_timestamp: u32,
    pub deployed_at_updated_account_index: u32,
    // {deployed_at_block_number}_{deployed_at_updated_account_index}_{}
    pub deployed_at_internal_time: u128,
}

#[derive(Debug, Clone)]
pub struct DatabaseAccountUpdate {
    // {account_bech}_{block_commitment}
    pub account_update_id: String,
    pub account_bech: String,
    pub final_state_commitment: Vec<u8>,
    pub nonce_delta: Option<u64>,
    pub block_number: u32,
    pub timestamp: u32,
    pub updated_account_index: u32,
    // {block_number}_{updated_account_index}_{}
    pub internal_time: u128,
}

#[derive(Debug, Clone)]
pub struct DatabaseAccountVaultAsset {
    // {account_bech}_{asset id}
    pub account_vault_asset_id: String,
    pub account_bech: String,
    pub faucet_id_prefix: Vec<u8>,
    pub amount: i64,
}

#[derive(Debug, Clone)]
pub struct DatabaseAccountStorageSlot {
    // {account_bech}_{slot id}
    pub account_storage_slot_id: String,
    pub account_bech: String,
    pub slot_index: String,
    pub value: Vec<u8>,
    pub account_storage_slot_type: DatabaseAccountStorageSlotType,
    pub last_updated_at_block_number: u32,
    pub last_updated_at_account_update_id: String,
    pub decoded_payload: Option<DecodedPayload>,
}

#[derive(Debug, Clone)]
pub struct DatabaseAccountStorageSlotMap {
    // {account_bech}_{slot id}_{key}
    pub account_storage_slot_map_id: String,
    pub account_bech: String,
    pub slot_index: String,
    pub key: Vec<u8>,
    pub value: Vec<u8>,
    pub last_updated_at_block_number: u32,
    pub last_updated_at_account_update_id: String,
    pub decoded_payload: Option<DecodedPayload>,
}

#[derive(Debug, Clone)]
pub struct DatabaseTransaction {
    pub transaction_id: Vec<u8>,
    // {account_bech}_{block_commitment}
    pub account_update_id: String,
    pub account_bech: String,
    pub block_number: u32,
    pub timestamp: u32,
    pub transaction_index: u32,
    pub initial_state_commitment: Vec<u8>,
    pub final_state_commitment: Vec<u8>,
    // {block_number}_{transaction_index}_0
    pub internal_time: u128,
}

#[derive(Debug, Clone)]
pub struct DatabaseTransactionInputNote {
    // {transaction_id}_{nullifier}
    pub transaction_input_note_id: String,
    pub transaction_id: Vec<u8>,
    pub nullifier: Vec<u8>,
}

#[derive(Debug, Clone)]
pub struct DatabaseTransactionOutputNote {
    // {transaction_id}_{note_id}
    pub transaction_output_note_id: String,
    pub transaction_id: Vec<u8>,
    pub note_id: Vec<u8>,
}

#[derive(Debug, Clone)]
pub struct DatabaseNote {
    pub note_id: Vec<u8>,
    pub recipient: Option<Vec<u8>>,
    pub sender: String,
    pub note_type: DatabaseMidenNoteType,
    pub note_tag: u32,
    pub nullifier: Option<Vec<u8>>,
    pub script_root: Option<String>,
    pub script_code: Option<String>,
    pub inputs: Option<Vec<u64>>,
    pub block_number: u32,
    pub timestamp: u32,
    pub batch_index: u16,
    pub note_index_in_batch: u16,
    pub leaf_index: u16,
    // {block_number}_{leaf_index}_{}
    pub internal_time: u128,
}

#[derive(Debug, Clone)]
pub struct DatabaseNoteAsset {
    // {note_id}_{faucet_id}
    pub note_asset_id: String,
    pub note_id: Vec<u8>,
    pub faucet_id_prefix: Vec<u8>,
    pub amount: u64,
}

#[derive(Debug, Clone)]
pub struct DatabaseNoteAttachment {
    // {note_id}_{position}
    pub note_attachment_id: String,
    pub note_id: Vec<u8>,
    pub position: i16,
    pub scheme: i32,
    pub content: Option<Vec<u8>>,
}

#[derive(Debug, Clone)]
pub struct DatabaseNoteTag {
    pub note_tag: u32,
    pub number_of_notes: u32,
}

#[derive(Debug, Clone)]
pub struct DatabaseNullifier {
    pub nullifier: Vec<u8>,
    pub nullifier_index: u32,
    pub block_number: u32,
    pub timestamp: u32,
    // {block_number}_{nullifier_index}_{}
    pub internal_time: u128,
}

#[derive(Debug, Clone)]
pub struct DatabaseFungibleFaucetAccount {
    pub account_bech: String,
    pub faucet_id_prefix: Vec<u8>,
    pub symbol: Option<String>,
    pub decimals: Option<u8>,
    pub max_supply: Option<u64>,
}

/// A standard account component with the digests of its procedures.
#[derive(Debug, Clone)]
pub struct DatabaseAccountVerifiedComponent {
    /// The component's UUID, as its 16 bytes.
    pub id: Vec<u8>,
    pub name: String,
    pub procedure_digests: Vec<String>,
    pub rust: Option<String>,
    pub masm: Option<String>,
    pub timestamp: i64,
    pub is_custom: bool,
}

/// A standard note script with its root.
#[derive(Debug, Clone)]
pub struct DatabaseNoteVerifiedScript {
    /// The script's UUID, as its 16 bytes.
    pub id: Vec<u8>,
    pub name: String,
    pub script_root: String,
    pub rust: Option<String>,
    pub masm: Option<String>,
    pub timestamp: i64,
    pub is_custom: bool,
}

#[derive(Debug, Clone, Copy, PartialEq, Eq, Structural)]
pub enum DatabaseMidenAccountType {
    FungibleFaucet,
    NonFungibleFaucet,
    RegularAccountImmutableCode,
    RegularAccountUpdatableCode,
}

#[derive(Debug, Clone, Copy, PartialEq, Eq, Structural)]
pub enum DatabaseMidenAccountStorageMode {
    Public,
    Network,
    Private,
}

#[derive(Debug, Clone, Copy, PartialEq, Eq, Structural)]
pub enum DatabaseMidenNoteType {
    Private,
    Encrypted,
    Public,
}

#[derive(Debug, Clone, Copy, PartialEq, Eq, Structural)]
pub enum DatabaseAccountStorageSlotType {
    Value,
    /// A storage map slot (stored as `Map`).
    StorageMap,
}

} // verus!
