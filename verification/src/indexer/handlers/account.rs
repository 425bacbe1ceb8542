use vstd::prelude::*;

use crate::db::models::{
    DatabaseAccount, DatabaseAccountStorageSlot, DatabaseAccountStorageSlotMap,
    DatabaseAccountStorageSlotType, DatabaseAccountUpdate, DatabaseAccountVaultAsset,
    DatabaseFungibleFaucetAccount, DatabaseMidenAccountStorageMode, DatabaseMidenAccountType,
};
use crate::indexer::handlers::block_data::{positions_fit_u32, BlockHeaderData, HandlerError};
use crate::indexer::handlers::storage_decoder::{
    copy_owner_config, decode_map_value, decode_slot, map_value_payload, slot_payload, word_felts,
    DecodedPayload, OwnerConfig, PayloadKind, PayloadView, ValueView, ALLOWED_POLICY_PROC_ROOTS,
};
use crate::utils::internal_time::{get_internal_time, internal_time};
use crate::utils::keyed::{keys_unique, key_fn, row_map, upsert, find_key, KeyedRow, lemma_keyed_contents, lemma_keyed_update, lemma_keyed_push, view_fn};
use crate::utils::text::join_id;

verus! {

// ================================================================================================
// BLOCK DATA
// ================================================================================================

/// The code of a newly deployed public account.
#[derive(Debug, Clone)]
pub struct AccountCodeData {
    pub account_type: DatabaseMidenAccountType,
    /// The code, rendered as text.
    pub code: String,
    pub code_size: u64,
    /// The MAST roots of the code's procedures, in hex.
    pub procedure_roots: Vec<String>,
    /// The code commitment, in hex.
    pub commitment_hex: String,
    /// The faucet's metadata, when the account is a fungible faucet.
    pub fungible_faucet: Option<FungibleFaucetData>,
}

#[derive(Debug, Clone)]
pub struct FungibleFaucetData {
    pub symbol: String,
    pub decimals: u8,
    pub max_supply: u64,
}

/// An asset of the vault patch, with its new total.
#[derive(Debug, Clone)]
pub struct VaultAssetData {
    pub faucet_id_prefix: Vec<u8>,
    /// The faucet id prefix (fungible) or the asset id (non-fungible), in hex.
    pub asset_id_hex: String,
    /// The amount of a fungible asset; `None` for a non-fungible asset.
    pub fungible_amount: Option<u64>,
}

/// An asset removed from the vault.
#[derive(Debug, Clone)]
pub struct RemovedAssetData {
    pub faucet_id_prefix: Vec<u8>,
    pub asset_id_hex: String,
}

/// A value slot of the storage patch.
#[derive(Debug, Clone)]
pub struct StorageValueData {
    pub slot_name: String,
    pub slot_id: String,
    /// The new value; `None` when the slot was removed.
    pub value: Option<Vec<u8>>,
    /// The value read as an `Ownable2Step` owner config, when it is one.
    pub owner_config: Option<OwnerConfig>,
}

/// An entry of a storage map patch.
#[derive(Debug, Clone)]
pub struct StorageMapEntryData {
    pub key: Vec<u8>,
    pub key_hex: String,
    pub value: Vec<u8>,
    /// The value read as an `Ownable2Step` owner config, when it is one.
    pub owner_config: Option<OwnerConfig>,
}

/// A map slot of the storage patch.
#[derive(Debug, Clone)]
pub struct StorageMapData {
    pub slot_name: String,
    pub slot_id: String,
    /// The entries; `None` when the map was removed.
    pub entries: Option<Vec<StorageMapEntryData>>,
}

/// The patch of a public account.
#[derive(Debug, Clone)]
pub struct AccountPatchData {
    /// The code, when the account is new.
    pub code: Option<AccountCodeData>,
    pub final_nonce: Option<u64>,
    pub updated_assets: Vec<VaultAssetData>,
    pub removed_assets: Vec<RemovedAssetData>,
    pub values: Vec<StorageValueData>,
    pub maps: Vec<StorageMapData>,
}

/// What the handlers read of an account updated in a block, as plain values.
#[derive(Debug, Clone)]
pub struct UpdatedAccountData {
    pub account_bech: String,
    pub account_id: Vec<u8>,
    pub account_id_prefix: Vec<u8>,
    pub storage_mode: DatabaseMidenAccountStorageMode,
    pub final_state_commitment: Vec<u8>,
    /// The patch of a public account; `None` for a private one.
    pub patch: Option<AccountPatchData>,
}

/// The rows that the accounts updated in a block produce.
#[derive(Debug, Clone)]
pub struct AccountRows {
    pub accounts: Vec<DatabaseAccount>,
    pub updates: Vec<DatabaseAccountUpdate>,
    pub vault_assets: Vec<DatabaseAccountVaultAsset>,
    pub storage_slots: Vec<DatabaseAccountStorageSlot>,
    pub storage_slot_maps: Vec<DatabaseAccountStorageSlotMap>,
    pub fungible_faucets: Vec<DatabaseFungibleFaucetAccount>,
}

// ================================================================================================
// ROW VIEWS
// ================================================================================================

pub struct VaultRowView {
    pub account_bech: Seq<char>,
    pub faucet_id_prefix: Seq<u8>,
    pub amount: i64,
}

pub struct SlotRowView {
    pub account_bech: Seq<char>,
    pub slot_name: Seq<char>,
    pub value: Seq<u8>,
    pub slot_type: DatabaseAccountStorageSlotType,
    pub block_number: u32,
    pub account_update_id: Seq<char>,
    pub decoded: Option<PayloadView>,
}

pub struct SlotMapRowView {
    pub account_bech: Seq<char>,
    pub slot_name: Seq<char>,
    pub key: Seq<u8>,
    pub value: Seq<u8>,
    pub block_number: u32,
    pub account_update_id: Seq<char>,
    pub decoded: Option<PayloadView>,
}

pub open spec fn decoded_view(d: Option<DecodedPayload>) -> Option<PayloadView> {
    match d {
        Some(p) => Some(p@),
        None => None,
    }
}

impl View for DatabaseAccountVaultAsset {
    type V = VaultRowView;

    open spec fn view(&self) -> VaultRowView {
        VaultRowView {
            account_bech: self.account_bech@,
            faucet_id_prefix: self.faucet_id_prefix@,
            amount: self.amount,
        }
    }
}

impl KeyedRow for DatabaseAccountVaultAsset {
    open spec fn row_key(&self) -> Seq<char> {
        self.account_vault_asset_id@
    }

    fn key_string(&self) -> (r: &String) {
        &self.account_vault_asset_id
    }
}

impl View for DatabaseAccountStorageSlot {
    type V = SlotRowView;

    open spec fn view(&self) -> SlotRowView {
        SlotRowView {
            account_bech: self.account_bech@,
            slot_name: self.slot_index@,
            value: self.value@,
            slot_type: self.account_storage_slot_type,
            block_number: self.last_updated_at_block_number,
            account_update_id: self.last_updated_at_account_update_id@,
            decoded: decoded_view(self.decoded_payload),
        }
    }
}

impl KeyedRow for DatabaseAccountStorageSlot {
    open spec fn row_key(&self) -> Seq<char> {
        self.account_storage_slot_id@
    }

    fn key_string(&self) -> (r: &String) {
        &self.account_storage_slot_id
    }
}

impl View for DatabaseAccountStorageSlotMap {
    type V = SlotMapRowView;

    open spec fn view(&self) -> SlotMapRowView {
        SlotMapRowView {
            account_bech: self.account_bech@,
            slot_name: self.slot_index@,
            key: self.key@,
            value: self.value@,
            block_number: self.last_updated_at_block_number,
            account_update_id: self.last_updated_at_account_update_id@,
            decoded: decoded_view(self.decoded_payload),
        }
    }
}

impl KeyedRow for DatabaseAccountStorageSlotMap {
    open spec fn row_key(&self) -> Seq<char> {
        self.account_storage_slot_map_id@
    }

    fn key_string(&self) -> (r: &String) {
        &self.account_storage_slot_map_id
    }
}


// ================================================================================================
// WHAT THE ROWS HOLD
// ================================================================================================

/// `{account_bech}_{block commitment}`: the id of the account's update in this block.
pub open spec fn account_update_id(header: BlockHeaderData, acc: UpdatedAccountData) -> Seq<char> {
    acc.account_bech@ + "_"@ + header.commitment_hex@
}

pub open spec fn code_of(acc: UpdatedAccountData) -> Option<AccountCodeData> {
    match acc.patch {
        Some(p) => p.code,
        None => None,
    }
}

/// The `account` row of the `index`-th account updated in the block.
pub open spec fn is_account_row(
    row: DatabaseAccount,
    header: BlockHeaderData,
    acc: UpdatedAccountData,
    index: int,
) -> bool {
    &&& row.account_bech@ == acc.account_bech@
    &&& row.account_id@ == acc.account_id@
    &&& row.account_id_prefix@ == acc.account_id_prefix@
    &&& row.storage_mode == acc.storage_mode
    &&& row.deployed_at_block_number == header.block_number
    &&& row.deployed_at_timestamp == header.timestamp
    &&& row.deployed_at_updated_account_index == index
    &&& row.deployed_at_internal_time == internal_time(header.block_number, index as u32, 0)
    &&& match code_of(acc) {
        Some(code) => {
            &&& row.account_type == Some(code.account_type)
            &&& row.code matches Some(c) && c@ == code.code@
            &&& row.code_size == code.code_size
            &&& row.code_procedure_roots matches Some(roots) && roots@.map_values(
                |r: String| r@,
            ) == code.procedure_roots@.map_values(|r: String| r@)
            &&& row.code_commitment matches Some(c) && c@ == code.commitment_hex@
        },
        None => {
            &&& row.account_type is None
            &&& row.code is None
            &&& row.code_size == 0
            &&& row.code_procedure_roots is None
            &&& row.code_commitment is None
        },
    }
}

/// The `account_update` row of the `index`-th account updated in the block.
pub open spec fn is_update_row(
    row: DatabaseAccountUpdate,
    header: BlockHeaderData,
    acc: UpdatedAccountData,
    index: int,
) -> bool {
    &&& row.account_update_id@ == account_update_id(header, acc)
    &&& row.account_bech@ == acc.account_bech@
    &&& row.final_state_commitment@ == acc.final_state_commitment@
    &&& row.nonce_delta == match acc.patch {
        Some(p) => p.final_nonce,
        None => None,
    }
    &&& row.block_number == header.block_number
    &&& row.timestamp == header.timestamp
    &&& row.updated_account_index == index
    &&& row.internal_time == internal_time(header.block_number, index as u32, 0)
}

/// (account, faucet id prefix, symbol, decimals, max supply) of a fungible faucet row.
pub open spec fn faucet_view(r: DatabaseFungibleFaucetAccount) -> (
    Seq<char>,
    Seq<u8>,
    Option<Seq<char>>,
    Option<u8>,
    Option<u64>,
) {
    (
        r.account_bech@,
        r.faucet_id_prefix@,
        match r.symbol {
            Some(s) => Some(s@),
            None => None,
        },
        r.decimals,
        r.max_supply,
    )
}

/// The fungible faucets deployed by the accounts, in order.
pub open spec fn faucet_rows_of(accs: Seq<UpdatedAccountData>) -> Seq<
    (Seq<char>, Seq<u8>, Option<Seq<char>>, Option<u8>, Option<u64>),
>
    decreases accs.len(),
{
    if accs.len() == 0 {
        Seq::empty()
    } else {
        let acc = accs.last();
        faucet_rows_of(accs.drop_last()) + match code_of(acc) {
            Some(code) => match code.fungible_faucet {
                Some(f) => seq![
                    (
                        acc.account_bech@,
                        acc.account_id_prefix@,
                        Some(f.symbol@),
                        Some(f.decimals),
                        Some(f.max_supply),
                    ),
                ],
                None => Seq::empty(),
            },
            None => Seq::empty(),
        }
    }
}

/// Whether a fungible amount does not fit in an `i64`.
pub open spec fn oversized(a: VaultAssetData) -> bool {
    match a.fungible_amount {
        Some(x) => x > i64::MAX,
        None => false,
    }
}

/// Whether the vault patch holds a fungible amount that does not fit in an `i64`.
pub open spec fn has_oversized_amount(acc: UpdatedAccountData) -> bool {
    match acc.patch {
        Some(p) => exists|j: int|
            0 <= j < p.updated_assets.len() && oversized(#[trigger] p.updated_assets@[j]),
        None => false,
    }
}

/// The amount stored for an updated asset: the fungible total, or 1 for a non-fungible one.
pub open spec fn stored_amount(a: VaultAssetData) -> i64 {
    match a.fungible_amount {
        Some(x) => x as i64,
        None => 1,
    }
}

pub open spec fn vault_updates(
    m: Map<Seq<char>, VaultRowView>,
    acc: UpdatedAccountData,
    assets: Seq<VaultAssetData>,
) -> Map<Seq<char>, VaultRowView>
    decreases assets.len(),
{
    if assets.len() == 0 {
        m
    } else {
        let a = assets.last();
        vault_updates(m, acc, assets.drop_last()).insert(
            acc.account_bech@ + "_"@ + a.asset_id_hex@,
            VaultRowView {
                account_bech: acc.account_bech@,
                faucet_id_prefix: a.faucet_id_prefix@,
                amount: stored_amount(a),
            },
        )
    }
}

pub open spec fn vault_removals(
    m: Map<Seq<char>, VaultRowView>,
    acc: UpdatedAccountData,
    removed: Seq<RemovedAssetData>,
) -> Map<Seq<char>, VaultRowView>
    decreases removed.len(),
{
    if removed.len() == 0 {
        m
    } else {
        let a = removed.last();
        vault_removals(m, acc, removed.drop_last()).insert(
            acc.account_bech@ + "_"@ + a.asset_id_hex@,
            VaultRowView {
                account_bech: acc.account_bech@,
                faucet_id_prefix: a.faucet_id_prefix@,
                amount: 0,
            },
        )
    }
}

/// The vault rows after one account's patch: the updated assets with their new totals,
/// then the removed assets with amount zero, each under `{account_bech}_{asset id}`.
pub open spec fn vault_after(m: Map<Seq<char>, VaultRowView>, acc: UpdatedAccountData) -> Map<
    Seq<char>,
    VaultRowView,
> {
    match acc.patch {
        Some(p) => vault_removals(vault_updates(m, acc, p.updated_assets@), acc, p.removed_assets@),
        None => m,
    }
}

pub open spec fn vault_rows_of(accs: Seq<UpdatedAccountData>) -> Map<Seq<char>, VaultRowView>
    decreases accs.len(),
{
    if accs.len() == 0 {
        Map::empty()
    } else {
        vault_after(vault_rows_of(accs.drop_last()), accs.last())
    }
}

/// A word of 32 zero bytes: what an empty or unknown slot value is stored as.
pub open spec fn zero_word() -> Seq<u8> {
    Seq::new(32, |i: int| 0u8)
}

pub open spec fn decoded_slot_view(name: Seq<char>, bytes: Seq<u8>, config: Option<OwnerConfig>) -> Option<PayloadView> {
    if bytes.len() == 32 {
        Some(slot_payload(name, bytes, config))
    } else {
        None
    }
}

pub open spec fn decoded_map_view(name: Seq<char>, bytes: Seq<u8>, config: Option<OwnerConfig>) -> Option<PayloadView> {
    if bytes.len() == 32 {
        Some(map_value_payload(name, bytes, config))
    } else {
        None
    }
}

pub open spec fn slot_value_bytes(v: StorageValueData) -> Seq<u8> {
    match v.value {
        Some(b) => b@,
        None => zero_word(),
    }
}

pub open spec fn slot_values(
    m: Map<Seq<char>, SlotRowView>,
    header: BlockHeaderData,
    acc: UpdatedAccountData,
    values: Seq<StorageValueData>,
) -> Map<Seq<char>, SlotRowView>
    decreases values.len(),
{
    if values.len() == 0 {
        m
    } else {
        let v = values.last();
        slot_values(m, header, acc, values.drop_last()).insert(
            acc.account_bech@ + "_"@ + v.slot_id@,
            SlotRowView {
                account_bech: acc.account_bech@,
                slot_name: v.slot_name@,
                value: slot_value_bytes(v),
                slot_type: DatabaseAccountStorageSlotType::Value,
                block_number: header.block_number,
                account_update_id: account_update_id(header, acc),
                decoded: decoded_slot_view(v.slot_name@, slot_value_bytes(v), v.owner_config),
            },
        )
    }
}

/// The slot row of a map slot: an existing row of the same slot becomes a map slot; a new
/// one holds a zero word and no decoded payload.
pub open spec fn mark_map_slot(
    m: Map<Seq<char>, SlotRowView>,
    header: BlockHeaderData,
    acc: UpdatedAccountData,
    map: StorageMapData,
) -> Map<Seq<char>, SlotRowView> {
    let id = acc.account_bech@ + "_"@ + map.slot_id@;
    if m.dom().contains(id) {
        m.insert(id, SlotRowView { slot_type: DatabaseAccountStorageSlotType::StorageMap, ..m[id] })
    } else {
        m.insert(
            id,
            SlotRowView {
                account_bech: acc.account_bech@,
                slot_name: map.slot_name@,
                value: zero_word(),
                slot_type: DatabaseAccountStorageSlotType::StorageMap,
                block_number: header.block_number,
                account_update_id: account_update_id(header, acc),
                decoded: None,
            },
        )
    }
}

pub open spec fn slot_maps(
    m: Map<Seq<char>, SlotRowView>,
    header: BlockHeaderData,
    acc: UpdatedAccountData,
    maps: Seq<StorageMapData>,
) -> Map<Seq<char>, SlotRowView>
    decreases maps.len(),
{
    if maps.len() == 0 {
        m
    } else {
        mark_map_slot(slot_maps(m, header, acc, maps.drop_last()), header, acc, maps.last())
    }
}

/// The slot rows after one account's patch: value slots under `{account_bech}_{slot id}`,
/// then map slots.
pub open spec fn slots_after(
    m: Map<Seq<char>, SlotRowView>,
    header: BlockHeaderData,
    acc: UpdatedAccountData,
) -> Map<Seq<char>, SlotRowView> {
    match acc.patch {
        Some(p) => slot_maps(slot_values(m, header, acc, p.values@), header, acc, p.maps@),
        None => m,
    }
}

pub open spec fn slot_rows_of(header: BlockHeaderData, accs: Seq<UpdatedAccountData>) -> Map<
    Seq<char>,
    SlotRowView,
>
    decreases accs.len(),
{
    if accs.len() == 0 {
        Map::empty()
    } else {
        slots_after(slot_rows_of(header, accs.drop_last()), header, accs.last())
    }
}

pub open spec fn map_entries(
    m: Map<Seq<char>, SlotMapRowView>,
    header: BlockHeaderData,
    acc: UpdatedAccountData,
    map: StorageMapData,
    entries: Seq<StorageMapEntryData>,
) -> Map<Seq<char>, SlotMapRowView>
    decreases entries.len(),
{
    if entries.len() == 0 {
        m
    } else {
        let e = entries.last();
        map_entries(m, header, acc, map, entries.drop_last()).insert(
            acc.account_bech@ + "_"@ + map.slot_id@ + "_"@ + e.key_hex@,
            SlotMapRowView {
                account_bech: acc.account_bech@,
                slot_name: map.slot_name@,
                key: e.key@,
                value: e.value@,
                block_number: header.block_number,
                account_update_id: account_update_id(header, acc),
                decoded: decoded_map_view(map.slot_name@, e.value@, e.owner_config),
            },
        )
    }
}

pub open spec fn map_rows_after_maps(
    m: Map<Seq<char>, SlotMapRowView>,
    header: BlockHeaderData,
    acc: UpdatedAccountData,
    maps: Seq<StorageMapData>,
) -> Map<Seq<char>, SlotMapRowView>
    decreases maps.len(),
{
    if maps.len() == 0 {
        m
    } else {
        let map = maps.last();
        let before = map_rows_after_maps(m, header, acc, maps.drop_last());
        match map.entries {
            Some(es) => map_entries(before, header, acc, map, es@),
            None => before,
        }
    }
}

/// The map entry rows after one account's patch, each under
/// `{account_bech}_{slot id}_{key}`.
pub open spec fn map_rows_after(
    m: Map<Seq<char>, SlotMapRowView>,
    header: BlockHeaderData,
    acc: UpdatedAccountData,
) -> Map<Seq<char>, SlotMapRowView> {
    match acc.patch {
        Some(p) => map_rows_after_maps(m, header, acc, p.maps@),
        None => m,
    }
}

pub open spec fn map_rows_of(header: BlockHeaderData, accs: Seq<UpdatedAccountData>) -> Map<
    Seq<char>,
    SlotMapRowView,
>
    decreases accs.len(),
{
    if accs.len() == 0 {
        Map::empty()
    } else {
        map_rows_after(map_rows_of(header, accs.drop_last()), header, accs.last())
    }
}


proof fn lemma_same_prefix_ids(p: Seq<char>, a: Seq<char>, b: Seq<char>)
    requires
        a != b,
    ensures
        p + a != p + b,
{
    if p + a == p + b {
        assert((p + a).subrange(p.len() as int, (p + a).len() as int) == a);
        assert((p + b).subrange(p.len() as int, (p + b).len() as int) == b);
    }
}

/// The row that a map entry leaves, when no later entry of the same map has its key: it is
/// stored under `{account}_{slot id}_{key}` and holds the entry's key and value, the map's
/// slot name, and the value decoded by the map-value decoder of that slot name under the
/// entry's own owner config (no decoding when the value is not a 32-byte word).
pub proof fn lemma_map_entry_row(
    m: Map<Seq<char>, SlotMapRowView>,
    header: BlockHeaderData,
    acc: UpdatedAccountData,
    map: StorageMapData,
    entries: Seq<StorageMapEntryData>,
    j: int,
)
    requires
        0 <= j < entries.len(),
        forall|i: int| j < i < entries.len() ==> (#[trigger] entries[i]).key_hex@ != entries[j].key_hex@,
    ensures
        ({
            let e = entries[j];
            let rows = map_entries(m, header, acc, map, entries);
            let id = acc.account_bech@ + "_"@ + map.slot_id@ + "_"@ + e.key_hex@;
            &&& rows.contains_key(id)
            &&& rows[id].account_bech == acc.account_bech@
            &&& rows[id].slot_name == map.slot_name@
            &&& rows[id].key == e.key@
            &&& rows[id].value == e.value@
            &&& rows[id].decoded == if e.value@.len() == 32 {
                Some(map_value_payload(map.slot_name@, e.value@, e.owner_config))
            } else {
                None
            }
        }),
    decreases entries.len(),
{
    if j < entries.len() - 1 {
        let init = entries.drop_last();
        assert forall|i: int| j < i < init.len() implies (#[trigger] init[i]).key_hex@
            != init[j].key_hex@ by {
            assert(init[i] == entries[i]);
        }
        lemma_map_entry_row(m, header, acc, map, init, j);
        assert(init[j] == entries[j]);
        let prefix = acc.account_bech@ + "_"@ + map.slot_id@ + "_"@;
        assert(entries[entries.len() - 1].key_hex@ != entries[j].key_hex@);
        lemma_same_prefix_ids(prefix, entries.last().key_hex@, entries[j].key_hex@);
    }
}

/// The row that a value slot of the patch leaves, when no later value of the patch has its
/// slot id: it is stored under `{account}_{slot id}` as a value slot holding the slot name,
/// the new value (a zero word for a removed slot), and that value decoded by the slot
/// decoder of the slot name under the value's own owner config (no decoding when the value
/// is not a 32-byte word).
pub proof fn lemma_slot_value_row(
    m: Map<Seq<char>, SlotRowView>,
    header: BlockHeaderData,
    acc: UpdatedAccountData,
    values: Seq<StorageValueData>,
    j: int,
)
    requires
        0 <= j < values.len(),
        forall|i: int| j < i < values.len() ==> (#[trigger] values[i]).slot_id@ != values[j].slot_id@,
    ensures
        ({
            let v = values[j];
            let rows = slot_values(m, header, acc, values);
            let id = acc.account_bech@ + "_"@ + v.slot_id@;
            let bytes = match v.value {
                Some(b) => b@,
                None => Seq::new(32, |i: int| 0u8),
            };
            &&& rows.contains_key(id)
            &&& rows[id].slot_name == v.slot_name@
            &&& rows[id].slot_type == DatabaseAccountStorageSlotType::Value
            &&& rows[id].value == bytes
            &&& rows[id].decoded == if bytes.len() == 32 {
                Some(slot_payload(v.slot_name@, bytes, v.owner_config))
            } else {
                None
            }
        }),
    decreases values.len(),
{
    if j < values.len() - 1 {
        let init = values.drop_last();
        assert forall|i: int| j < i < init.len() implies (#[trigger] init[i]).slot_id@
            != init[j].slot_id@ by {
            assert(init[i] == values[i]);
        }
        lemma_slot_value_row(m, header, acc, init, j);
        assert(init[j] == values[j]);
        let prefix = acc.account_bech@ + "_"@;
        assert(values[values.len() - 1].slot_id@ != values[j].slot_id@);
        lemma_same_prefix_ids(prefix, values.last().slot_id@, values[j].slot_id@);
    }
}

/// A storage slot row shows its value decoded by the slot decoder of its slot name (under
/// some owner config read from the value), if at all; a value slot is decoded exactly when
/// its value is a 32-byte word.
pub open spec fn decoded_as_slot_value(r: SlotRowView) -> bool {
    &&& r.decoded is Some ==> exists|cfg: Option<OwnerConfig>|
        r.decoded == Some(slot_payload(r.slot_name, r.value, cfg))
    &&& r.slot_type == DatabaseAccountStorageSlotType::Value ==> (r.decoded is Some <==> r.value.len()
        == 32)
}

proof fn lemma_slot_values_decode_as_slot_values(
    m: Map<Seq<char>, SlotRowView>,
    header: BlockHeaderData,
    acc: UpdatedAccountData,
    values: Seq<StorageValueData>,
)
    requires
        forall|k: Seq<char>| #[trigger] m.contains_key(k) ==> decoded_as_slot_value(m[k]),
    ensures
        forall|k: Seq<char>| #[trigger] slot_values(m, header, acc, values).contains_key(k)
            ==> decoded_as_slot_value(slot_values(m, header, acc, values)[k]),
    decreases values.len(),
{
    if values.len() > 0 {
        lemma_slot_values_decode_as_slot_values(m, header, acc, values.drop_last());
        let v = values.last();
        let before = slot_values(m, header, acc, values.drop_last());
        let id = acc.account_bech@ + "_"@ + v.slot_id@;
        let row = slot_values(m, header, acc, values)[id];
        if slot_value_bytes(v).len() == 32 {
            assert(row.decoded == Some(slot_payload(row.slot_name, row.value, v.owner_config)));
        }
        assert(decoded_as_slot_value(row));
        assert forall|k: Seq<char>| #[trigger] slot_values(m, header, acc, values).contains_key(k)
            implies decoded_as_slot_value(slot_values(m, header, acc, values)[k]) by {
            if k != id {
                assert(before.contains_key(k));
            }
        }
    }
}

proof fn lemma_slot_maps_decode_as_slot_values(
    m: Map<Seq<char>, SlotRowView>,
    header: BlockHeaderData,
    acc: UpdatedAccountData,
    maps: Seq<StorageMapData>,
)
    requires
        forall|k: Seq<char>| #[trigger] m.contains_key(k) ==> decoded_as_slot_value(m[k]),
    ensures
        forall|k: Seq<char>| #[trigger] slot_maps(m, header, acc, maps).contains_key(k)
            ==> decoded_as_slot_value(slot_maps(m, header, acc, maps)[k]),
    decreases maps.len(),
{
    if maps.len() > 0 {
        lemma_slot_maps_decode_as_slot_values(m, header, acc, maps.drop_last());
        let before = slot_maps(m, header, acc, maps.drop_last());
        let map = maps.last();
        let id = acc.account_bech@ + "_"@ + map.slot_id@;
        let after = slot_maps(m, header, acc, maps);
        assert forall|k: Seq<char>| #[trigger] after.contains_key(k) implies decoded_as_slot_value(
            after[k],
        ) by {
            if k != id {
                assert(before.contains_key(k));
            } else if before.contains_key(id) {
                assert(decoded_as_slot_value(before[id]));
                assert(after[id].decoded == before[id].decoded);
                assert(after[id].slot_name == before[id].slot_name);
                assert(after[id].value == before[id].value);
            }
        }
    }
}

/// Every storage slot row that the account rows hold shows its value decoded by the slot
/// decoder of its slot name, if at all; a value slot (as opposed to a map slot) is decoded
/// exactly when its value is a 32-byte word.
pub proof fn lemma_slot_rows_decode_as_slot_values(header: BlockHeaderData, accs: Seq<UpdatedAccountData>)
    ensures
        forall|k: Seq<char>| #[trigger] slot_rows_of(header, accs).contains_key(k)
            ==> decoded_as_slot_value(slot_rows_of(header, accs)[k]),
    decreases accs.len(),
{
    if accs.len() > 0 {
        lemma_slot_rows_decode_as_slot_values(header, accs.drop_last());
        let before = slot_rows_of(header, accs.drop_last());
        match accs.last().patch {
            Some(p) => {
                lemma_slot_values_decode_as_slot_values(before, header, accs.last(), p.values@);
                lemma_slot_maps_decode_as_slot_values(
                    slot_values(before, header, accs.last(), p.values@),
                    header,
                    accs.last(),
                    p.maps@,
                );
            },
            None => {},
        }
    }
}

/// A storage map row shows its value decoded as a value of its map: by the map-value
/// decoder of the map's slot name (under some owner config read from the value), when the
/// value is a 32-byte word, and not at all otherwise.
pub open spec fn decoded_as_map_value(r: SlotMapRowView) -> bool {
    if r.value.len() == 32 {
        exists|cfg: Option<OwnerConfig>| r.decoded == Some(map_value_payload(r.slot_name, r.value, cfg))
    } else {
        r.decoded is None
    }
}

proof fn lemma_map_entries_decode_as_map_values(
    m: Map<Seq<char>, SlotMapRowView>,
    header: BlockHeaderData,
    acc: UpdatedAccountData,
    map: StorageMapData,
    entries: Seq<StorageMapEntryData>,
)
    requires
        forall|k: Seq<char>| #[trigger] m.contains_key(k) ==> decoded_as_map_value(m[k]),
    ensures
        forall|k: Seq<char>| #[trigger] map_entries(m, header, acc, map, entries).contains_key(k)
            ==> decoded_as_map_value(map_entries(m, header, acc, map, entries)[k]),
    decreases entries.len(),
{
    if entries.len() > 0 {
        lemma_map_entries_decode_as_map_values(m, header, acc, map, entries.drop_last());
        let e = entries.last();
        let before = map_entries(m, header, acc, map, entries.drop_last());
        let id = acc.account_bech@ + "_"@ + map.slot_id@ + "_"@ + e.key_hex@;
        let row = map_entries(m, header, acc, map, entries)[id];
        if e.value@.len() == 32 {
            assert(row.decoded == Some(map_value_payload(row.slot_name, row.value, e.owner_config)));
        }
        assert(decoded_as_map_value(row));
        assert forall|k: Seq<char>| #[trigger] map_entries(m, header, acc, map, entries).contains_key(k)
            implies decoded_as_map_value(map_entries(m, header, acc, map, entries)[k]) by {
            if k != id {
                assert(before.contains_key(k));
            }
        }
    }
}

proof fn lemma_map_slots_decode_as_map_values(
    m: Map<Seq<char>, SlotMapRowView>,
    header: BlockHeaderData,
    acc: UpdatedAccountData,
    maps: Seq<StorageMapData>,
)
    requires
        forall|k: Seq<char>| #[trigger] m.contains_key(k) ==> decoded_as_map_value(m[k]),
    ensures
        forall|k: Seq<char>| #[trigger] map_rows_after_maps(m, header, acc, maps).contains_key(k)
            ==> decoded_as_map_value(map_rows_after_maps(m, header, acc, maps)[k]),
    decreases maps.len(),
{
    if maps.len() > 0 {
        lemma_map_slots_decode_as_map_values(m, header, acc, maps.drop_last());
        let before = map_rows_after_maps(m, header, acc, maps.drop_last());
        match maps.last().entries {
            Some(es) => lemma_map_entries_decode_as_map_values(before, header, acc, maps.last(), es@),
            None => {},
        }
    }
}

/// Every storage map row that the account rows hold shows its entry's value decoded by the
/// map-value decoder of its map's slot name (so that, for instance, an entry of
/// `allowed_policy_proc_roots` is a flag, set exactly when the first felt is not zero), when
/// the value is a 32-byte word, and no decoding otherwise.
pub proof fn lemma_map_rows_decode_as_map_values(header: BlockHeaderData, accs: Seq<UpdatedAccountData>)
    ensures
        forall|k: Seq<char>| #[trigger] map_rows_of(header, accs).contains_key(k)
            ==> decoded_as_map_value(map_rows_of(header, accs)[k]),
        forall|k: Seq<char>|
            #[trigger] map_rows_of(header, accs).contains_key(k) && map_rows_of(header, accs)[k].slot_name
                == ALLOWED_POLICY_PROC_ROOTS@ && map_rows_of(header, accs)[k].value.len() == 32
                ==> map_rows_of(header, accs)[k].decoded == Some(
                PayloadView {
                    kind: PayloadKind::Bool,
                    value: ValueView::Flag(word_felts(map_rows_of(header, accs)[k].value)[0] != 0),
                    display: if word_felts(map_rows_of(header, accs)[k].value)[0] != 0 {
                        "true"@
                    } else {
                        "false"@
                    },
                },
            ),
    decreases accs.len(),
{
    if accs.len() > 0 {
        lemma_map_rows_decode_as_map_values(header, accs.drop_last());
        let before = map_rows_of(header, accs.drop_last());
        match accs.last().patch {
            Some(p) => lemma_map_slots_decode_as_map_values(before, header, accs.last(), p.maps@),
            None => {},
        }
    }
    assert forall|k: Seq<char>|
        #[trigger] map_rows_of(header, accs).contains_key(k) && map_rows_of(header, accs)[k].slot_name
            == ALLOWED_POLICY_PROC_ROOTS@ && map_rows_of(header, accs)[k].value.len() == 32
            implies map_rows_of(header, accs)[k].decoded == Some(
            PayloadView {
                kind: PayloadKind::Bool,
                value: ValueView::Flag(word_felts(map_rows_of(header, accs)[k].value)[0] != 0),
                display: if word_felts(map_rows_of(header, accs)[k].value)[0] != 0 {
                    "true"@
                } else {
                    "false"@
                },
            },
        ) by {
        assert(decoded_as_map_value(map_rows_of(header, accs)[k]));
    }
}

// ================================================================================================
// BUILDING THE ROWS
// ================================================================================================

fn zero_word_bytes() -> (v: Vec<u8>)
    ensures
        v@ == zero_word(),
{
    let mut v: Vec<u8> = Vec::new();
    for i in 0..32
        invariant
            v@ == Seq::new(i as nat, |k: int| 0u8),
    {
        v.push(0);
        assert(v@ =~= Seq::new((i + 1) as nat, |k: int| 0u8));
    }
    v
}

fn clone_strings(v: &Vec<String>) -> (r: Vec<String>)
    ensures
        r@.map_values(|s: String| s@) == v@.map_values(|s: String| s@),
{
    let mut r: Vec<String> = Vec::new();
    for i in 0..v.len()
        invariant
            r@.map_values(|s: String| s@) == v@.take(i as int).map_values(|s: String| s@),
    {
        let c = v[i].clone();
        let ghost before = r@;
        r.push(c);
        assert(v@.take(i + 1) == v@.take(i as int).push(v@[i as int]));
        assert(r@.map_values(|s: String| s@) =~= before.map_values(|s: String| s@).push(c@));
        assert(v@.take(i + 1).map_values(|s: String| s@) =~= v@.take(i as int).map_values(
            |s: String| s@,
        ).push(v@[i as int]@));
    }
    assert(v@.take(v.len() as int) == v@);
    r
}

/// Applies a vault patch: each updated asset stores its new total, each removed asset zero.
fn apply_vault_patch(
    rows: &mut Vec<DatabaseAccountVaultAsset>,
    acc: &UpdatedAccountData,
    patch: &AccountPatchData,
) -> (r: Result<(), HandlerError>)
    requires
        keys_unique(old(rows)@, key_fn::<DatabaseAccountVaultAsset>()),
        acc.patch == Some(*patch),
    ensures
        r is Err <==> has_oversized_amount(*acc),
        r is Err ==> r == Err::<(), HandlerError>(HandlerError::AmountOutOfRange),
        r is Ok ==> keys_unique(final(rows)@, key_fn::<DatabaseAccountVaultAsset>()) && row_map(
            final(rows)@,
        ) == vault_after(row_map(old(rows)@), *acc),
{
    let ghost start = row_map(rows@);
    for j in 0..patch.updated_assets.len()
        invariant
            acc.patch == Some(*patch),
            keys_unique(rows@, key_fn::<DatabaseAccountVaultAsset>()),
            row_map(rows@) == vault_updates(start, *acc, patch.updated_assets@.take(j as int)),
            forall|m: int| 0 <= m < j ==> !oversized(#[trigger] patch.updated_assets@[m]),
    {
        let asset = &patch.updated_assets[j];
        let amount: i64 = match asset.fungible_amount {
            Some(x) => {
                if x > 0x7FFF_FFFF_FFFF_FFFF {
                    assert(oversized(patch.updated_assets@[j as int]));
                    return Err(HandlerError::AmountOutOfRange);
                }
                x as i64
            },
            None => 1,
        };
        let row = DatabaseAccountVaultAsset {
            account_vault_asset_id: join_id(acc.account_bech.as_str(), asset.asset_id_hex.as_str()),
            account_bech: acc.account_bech.clone(),
            faucet_id_prefix: asset.faucet_id_prefix.clone(),
            amount,
        };
        upsert(rows, row);
        assert(patch.updated_assets@.take(j + 1).drop_last() == patch.updated_assets@.take(j as int));
    }
    assert(patch.updated_assets@.take(patch.updated_assets.len() as int) == patch.updated_assets@);
    let ghost mid = row_map(rows@);
    for j in 0..patch.removed_assets.len()
        invariant
            keys_unique(rows@, key_fn::<DatabaseAccountVaultAsset>()),
            row_map(rows@) == vault_removals(mid, *acc, patch.removed_assets@.take(j as int)),
    {
        let asset = &patch.removed_assets[j];
        let row = DatabaseAccountVaultAsset {
            account_vault_asset_id: join_id(acc.account_bech.as_str(), asset.asset_id_hex.as_str()),
            account_bech: acc.account_bech.clone(),
            faucet_id_prefix: asset.faucet_id_prefix.clone(),
            amount: 0,
        };
        upsert(rows, row);
        assert(patch.removed_assets@.take(j + 1).drop_last() == patch.removed_assets@.take(j as int));
    }
    assert(patch.removed_assets@.take(patch.removed_assets.len() as int) == patch.removed_assets@);
    Ok(())
}

/// Stores each value slot of the patch, decoded.
fn apply_slot_values(
    rows: &mut Vec<DatabaseAccountStorageSlot>,
    header: &BlockHeaderData,
    acc: &UpdatedAccountData,
    patch: &AccountPatchData,
)
    requires
        keys_unique(old(rows)@, key_fn::<DatabaseAccountStorageSlot>()),
    ensures
        keys_unique(final(rows)@, key_fn::<DatabaseAccountStorageSlot>()),
        row_map(final(rows)@) == slot_values(row_map(old(rows)@), *header, *acc, patch.values@),
{
    let ghost start = row_map(rows@);
    let update_id = join_id(acc.account_bech.as_str(), header.commitment_hex.as_str());
    for j in 0..patch.values.len()
        invariant
            update_id@ == account_update_id(*header, *acc),
            keys_unique(rows@, key_fn::<DatabaseAccountStorageSlot>()),
            row_map(rows@) == slot_values(start, *header, *acc, patch.values@.take(j as int)),
    {
        let v = &patch.values[j];
        let value = match &v.value {
            Some(b) => b.clone(),
            None => zero_word_bytes(),
        };
        let decoded = decode_slot(v.slot_name.as_str(), value.as_slice(), copy_owner_config(&v.owner_config));
        let row = DatabaseAccountStorageSlot {
            account_storage_slot_id: join_id(acc.account_bech.as_str(), v.slot_id.as_str()),
            account_bech: acc.account_bech.clone(),
            slot_index: v.slot_name.clone(),
            value,
            account_storage_slot_type: DatabaseAccountStorageSlotType::Value,
            last_updated_at_block_number: header.block_number,
            last_updated_at_account_update_id: update_id.clone(),
            decoded_payload: decoded,
        };
        assert(row@ == SlotRowView {
            account_bech: acc.account_bech@,
            slot_name: v.slot_name@,
            value: slot_value_bytes(*v),
            slot_type: DatabaseAccountStorageSlotType::Value,
            block_number: header.block_number,
            account_update_id: account_update_id(*header, *acc),
            decoded: decoded_slot_view(v.slot_name@, slot_value_bytes(*v), v.owner_config),
        });
        upsert(rows, row);
        assert(patch.values@.take(j + 1).drop_last() == patch.values@.take(j as int));
    }
    assert(patch.values@.take(patch.values.len() as int) == patch.values@);
}

/// Records each map slot of the patch: its slot row becomes (or is created as) a map slot,
/// and each of its entries is stored, decoded.
fn apply_slot_maps(
    slots: &mut Vec<DatabaseAccountStorageSlot>,
    entries: &mut Vec<DatabaseAccountStorageSlotMap>,
    header: &BlockHeaderData,
    acc: &UpdatedAccountData,
    patch: &AccountPatchData,
)
    requires
        keys_unique(old(slots)@, key_fn::<DatabaseAccountStorageSlot>()),
        keys_unique(old(entries)@, key_fn::<DatabaseAccountStorageSlotMap>()),
    ensures
        keys_unique(final(slots)@, key_fn::<DatabaseAccountStorageSlot>()),
        keys_unique(final(entries)@, key_fn::<DatabaseAccountStorageSlotMap>()),
        row_map(final(slots)@) == slot_maps(row_map(old(slots)@), *header, *acc, patch.maps@),
        row_map(final(entries)@) == map_rows_after_maps(
            row_map(old(entries)@),
            *header,
            *acc,
            patch.maps@,
        ),
{
    let ghost slot_start = row_map(slots@);
    let ghost entry_start = row_map(entries@);
    let update_id = join_id(acc.account_bech.as_str(), header.commitment_hex.as_str());
    for j in 0..patch.maps.len()
        invariant
            update_id@ == account_update_id(*header, *acc),
            keys_unique(slots@, key_fn::<DatabaseAccountStorageSlot>()),
            keys_unique(entries@, key_fn::<DatabaseAccountStorageSlotMap>()),
            row_map(slots@) == slot_maps(slot_start, *header, *acc, patch.maps@.take(j as int)),
            row_map(entries@) == map_rows_after_maps(
                entry_start,
                *header,
                *acc,
                patch.maps@.take(j as int),
            ),
    {
        let map = &patch.maps[j];
        assert(patch.maps@.take(j + 1).drop_last() == patch.maps@.take(j as int));
        let slot_id = join_id(acc.account_bech.as_str(), map.slot_id.as_str());
        let ghost before = row_map(slots@);
        match find_key(slots, &slot_id) {
            Some(k) => {
                let ghost old_rows = slots@;
                proof {
                    lemma_keyed_contents(slots@, key_fn::<DatabaseAccountStorageSlot>(), view_fn::<DatabaseAccountStorageSlot>());
                }
                let mut row = slots.remove(k);
                row.account_storage_slot_type = DatabaseAccountStorageSlotType::StorageMap;
                slots.insert(k, row);
                proof {
                    assert(slots@ =~= old_rows.update(k as int, row));
                    assert(key_fn::<DatabaseAccountStorageSlot>()(old_rows[k as int]) == slot_id@);
                    lemma_keyed_update(old_rows, k as int, row, key_fn::<DatabaseAccountStorageSlot>(), view_fn::<DatabaseAccountStorageSlot>());
                    assert(row@ == SlotRowView {
                        slot_type: DatabaseAccountStorageSlotType::StorageMap,
                        ..before[slot_id@]
                    });
                }
            },
            None => {
                let row = DatabaseAccountStorageSlot {
                    account_storage_slot_id: slot_id,
                    account_bech: acc.account_bech.clone(),
                    slot_index: map.slot_name.clone(),
                    value: zero_word_bytes(),
                    account_storage_slot_type: DatabaseAccountStorageSlotType::StorageMap,
                    last_updated_at_block_number: header.block_number,
                    last_updated_at_account_update_id: update_id.clone(),
                    decoded_payload: None,
                };
                proof {
                    lemma_keyed_push(slots@, row, key_fn::<DatabaseAccountStorageSlot>(), view_fn::<DatabaseAccountStorageSlot>());
                }
                slots.push(row);
            },
        }
        match &map.entries {
            Some(es) => {
                let ghost entries_before = row_map(entries@);
                for e in 0..es.len()
                    invariant
                        map.entries == Some(*es),
                        update_id@ == account_update_id(*header, *acc),
                        keys_unique(entries@, key_fn::<DatabaseAccountStorageSlotMap>()),
                        row_map(entries@) == map_entries(
                            entries_before,
                            *header,
                            *acc,
                            *map,
                            es@.take(e as int),
                        ),
                {
                    let entry = &es[e];
                    let mut id = join_id(acc.account_bech.as_str(), map.slot_id.as_str());
                    id.append("_");
                    id.append(entry.key_hex.as_str());
                    let decoded = decode_map_value(
                        map.slot_name.as_str(),
                        entry.value.as_slice(),
                        copy_owner_config(&entry.owner_config),
                    );
                    let row = DatabaseAccountStorageSlotMap {
                        account_storage_slot_map_id: id,
                        account_bech: acc.account_bech.clone(),
                        slot_index: map.slot_name.clone(),
                        key: entry.key.clone(),
                        value: entry.value.clone(),
                        last_updated_at_block_number: header.block_number,
                        last_updated_at_account_update_id: update_id.clone(),
                        decoded_payload: decoded,
                    };
                    upsert(entries, row);
                    assert(es@.take(e + 1).drop_last() == es@.take(e as int));
                }
                assert(es@.take(es.len() as int) == es@);
            },
            None => {},
        }
    }
    assert(patch.maps@.take(patch.maps.len() as int) == patch.maps@);
}


fn account_row(header: &BlockHeaderData, acc: &UpdatedAccountData, index: u32) -> (row: DatabaseAccount)
    ensures
        is_account_row(row, *header, *acc, index as int),
{
    let mut row = DatabaseAccount {
        account_bech: acc.account_bech.clone(),
        account_id: acc.account_id.clone(),
        account_id_prefix: acc.account_id_prefix.clone(),
        account_type: None,
        storage_mode: acc.storage_mode,
        code: None,
        code_size: 0,
        code_procedure_roots: None,
        code_commitment: None,
        deployed_at_block_number: header.block_number,
        deployed_at_timestamp: header.timestamp,
        deployed_at_updated_account_index: index,
        deployed_at_internal_time: get_internal_time(header.block_number, index, 0),
    };
    match &acc.patch {
        Some(patch) => match &patch.code {
            Some(code) => {
                row.account_type = Some(code.account_type);
                row.code = Some(code.code.clone());
                row.code_size = code.code_size;
                row.code_procedure_roots = Some(clone_strings(&code.procedure_roots));
                row.code_commitment = Some(code.commitment_hex.clone());
            },
            None => {},
        },
        None => {},
    }
    row
}

fn update_row(header: &BlockHeaderData, acc: &UpdatedAccountData, index: u32) -> (row: DatabaseAccountUpdate)
    ensures
        is_update_row(row, *header, *acc, index as int),
{
    DatabaseAccountUpdate {
        account_update_id: join_id(acc.account_bech.as_str(), header.commitment_hex.as_str()),
        account_bech: acc.account_bech.clone(),
        final_state_commitment: acc.final_state_commitment.clone(),
        nonce_delta: match &acc.patch {
            Some(p) => p.final_nonce,
            None => None,
        },
        block_number: header.block_number,
        timestamp: header.timestamp,
        updated_account_index: index,
        internal_time: get_internal_time(header.block_number, index, 0),
    }
}

/// Whether one of the accounts at a position that fits in a `u32` has a fungible amount
/// that does not fit in an `i64`.
pub open spec fn some_oversized_amount(accs: Seq<UpdatedAccountData>) -> bool {
    exists|i: int| 0 <= i < accs.len() && i <= u32::MAX && has_oversized_amount(#[trigger] accs[i])
}

/// The rows of the accounts updated in a block: one `account` and one `account_update` row
/// per account, in order; the fungible faucets they deploy; and, keyed by id (a later change
/// of the same id replacing an earlier one), the vault assets, storage slots and storage map
/// entries that their patches change.
pub fn account_rows(header: &BlockHeaderData, accounts: &Vec<UpdatedAccountData>) -> (r: Result<
    AccountRows,
    HandlerError,
>)
    ensures
        some_oversized_amount(accounts@) ==> r == Err::<AccountRows, HandlerError>(
            HandlerError::AmountOutOfRange,
        ),
        !some_oversized_amount(accounts@) ==> (r is Err <==> !positions_fit_u32(
            accounts.len() as int,
        )),
        !some_oversized_amount(accounts@) && r is Err ==> r == Err::<AccountRows, HandlerError>(
            HandlerError::IndexOutOfRange,
        ),
        r matches Ok(rows) ==> {
            &&& rows.accounts.len() == accounts.len()
            &&& rows.updates.len() == accounts.len()
            &&& forall|i: int|
                0 <= i < accounts.len() ==> is_account_row(
                    #[trigger] rows.accounts@[i],
                    *header,
                    accounts@[i],
                    i,
                )
            &&& forall|i: int|
                0 <= i < accounts.len() ==> is_update_row(
                    #[trigger] rows.updates@[i],
                    *header,
                    accounts@[i],
                    i,
                )
            &&& rows.fungible_faucets@.map_values(|f: DatabaseFungibleFaucetAccount| faucet_view(f))
                == faucet_rows_of(accounts@)
            &&& keys_unique(rows.vault_assets@, key_fn::<DatabaseAccountVaultAsset>())
            &&& row_map(rows.vault_assets@) == vault_rows_of(accounts@)
            &&& keys_unique(rows.storage_slots@, key_fn::<DatabaseAccountStorageSlot>())
            &&& row_map(rows.storage_slots@) == slot_rows_of(*header, accounts@)
            &&& keys_unique(rows.storage_slot_maps@, key_fn::<DatabaseAccountStorageSlotMap>())
            &&& row_map(rows.storage_slot_maps@) == map_rows_of(*header, accounts@)
        },
{
    let mut account_rows: Vec<DatabaseAccount> = Vec::new();
    let mut updates: Vec<DatabaseAccountUpdate> = Vec::new();
    let mut vault_assets: Vec<DatabaseAccountVaultAsset> = Vec::new();
    let mut storage_slots: Vec<DatabaseAccountStorageSlot> = Vec::new();
    let mut storage_slot_maps: Vec<DatabaseAccountStorageSlotMap> = Vec::new();
    let mut fungible_faucets: Vec<DatabaseFungibleFaucetAccount> = Vec::new();
    proof {
        assert(row_map(vault_assets@) =~= Map::<Seq<char>, VaultRowView>::empty());
        assert(row_map(storage_slots@) =~= Map::<Seq<char>, SlotRowView>::empty());
        assert(row_map(storage_slot_maps@) =~= Map::<Seq<char>, SlotMapRowView>::empty());
    }
    for i in 0..accounts.len()
        invariant
            i <= 0x1_0000_0000,
            account_rows.len() == i,
            updates.len() == i,
            forall|k: int|
                0 <= k < i ==> is_account_row(#[trigger] account_rows@[k], *header, accounts@[k], k),
            forall|k: int|
                0 <= k < i ==> is_update_row(#[trigger] updates@[k], *header, accounts@[k], k),
            forall|k: int| 0 <= k < i ==> !has_oversized_amount(#[trigger] accounts@[k]),
            fungible_faucets@.map_values(|f: DatabaseFungibleFaucetAccount| faucet_view(f))
                == faucet_rows_of(accounts@.take(i as int)),
            keys_unique(vault_assets@, key_fn::<DatabaseAccountVaultAsset>()),
            row_map(vault_assets@) == vault_rows_of(accounts@.take(i as int)),
            keys_unique(storage_slots@, key_fn::<DatabaseAccountStorageSlot>()),
            row_map(storage_slots@) == slot_rows_of(*header, accounts@.take(i as int)),
            keys_unique(storage_slot_maps@, key_fn::<DatabaseAccountStorageSlotMap>()),
            row_map(storage_slot_maps@) == map_rows_of(*header, accounts@.take(i as int)),
    {
        if i as u64 > 0xFFFF_FFFF {
            proof {
                assert forall|k: int| 0 <= k < accounts.len() && k <= u32::MAX implies !has_oversized_amount(#[trigger] accounts@[k]) by {}
            }
            return Err(HandlerError::IndexOutOfRange);
        }
        let index = i as u32;
        let acc = &accounts[i];
        let ghost prev = accounts@.take(i as int);
        let ghost next = accounts@.take(i + 1);
        assert(next.drop_last() == prev);
        assert(next.last() == acc);
        account_rows.push(account_row(header, acc, index));
        updates.push(update_row(header, acc, index));
        match &acc.patch {
            Some(patch) => {
                let vault_result = apply_vault_patch(&mut vault_assets, acc, patch);
                if vault_result.is_err() {
                    proof {
                        assert(has_oversized_amount(accounts@[i as int]));
                        assert(some_oversized_amount(accounts@));
                    }
                    return Err(HandlerError::AmountOutOfRange);
                }
                apply_slot_values(&mut storage_slots, header, acc, patch);
                apply_slot_maps(&mut storage_slots, &mut storage_slot_maps, header, acc, patch);
                let ghost faucets_before = fungible_faucets@;
                match &patch.code {
                    Some(code) => match &code.fungible_faucet {
                        Some(f) => {
                            let row = DatabaseFungibleFaucetAccount {
                                account_bech: acc.account_bech.clone(),
                                faucet_id_prefix: acc.account_id_prefix.clone(),
                                symbol: Some(f.symbol.clone()),
                                decimals: Some(f.decimals),
                                max_supply: Some(f.max_supply),
                            };
                            fungible_faucets.push(row);
                            assert(fungible_faucets@.map_values(
                                |f: DatabaseFungibleFaucetAccount| faucet_view(f),
                            ) =~= faucets_before.map_values(
                                |f: DatabaseFungibleFaucetAccount| faucet_view(f),
                            ).push(faucet_view(row)));
                        },
                        None => {},
                    },
                    None => {},
                }
                proof {
                    assert(fungible_faucets@.map_values(
                        |f: DatabaseFungibleFaucetAccount| faucet_view(f),
                    ) =~= faucet_rows_of(next));
                }
            },
            None => {
                proof {
                    assert(faucet_rows_of(next) =~= faucet_rows_of(prev));
                }
            },
        }
    }
    assert(accounts@.take(accounts.len() as int) == accounts@);
    Ok(
        AccountRows {
            accounts: account_rows,
            updates,
            vault_assets,
            storage_slots,
            storage_slot_maps,
            fungible_faucets,
        },
    )
}

} // verus!
