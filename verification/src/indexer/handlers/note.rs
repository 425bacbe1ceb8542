use vstd::prelude::*;

use crate::db::models::{
    DatabaseMidenNoteType, DatabaseNote, DatabaseNoteAsset, DatabaseNoteAttachment,
    DatabaseNoteTag,
};
use crate::indexer::handlers::block_data::BlockHeaderData;
use crate::utils::internal_time::{get_internal_time, internal_time};
use crate::utils::text::{
    decimal, is_ascii_upper, join_id, normalize_hex_root, normalized_hex_root, push_decimal,
};

verus! {

/// An attachment of a note: its scheme and its serialized bytes.
#[derive(Debug, Clone)]
pub struct AttachmentData {
    pub scheme: u16,
    pub bytes: Vec<u8>,
}

/// An asset carried by a note.
#[derive(Debug, Clone)]
pub struct NoteAssetData {
    pub faucet_id_prefix: Vec<u8>,
    pub faucet_id_hex: String,
    /// The amount of a fungible asset; `None` for a non-fungible asset.
    pub fungible_amount: Option<u64>,
}

/// What only a public note discloses.
#[derive(Debug, Clone)]
pub struct PublicNoteData {
    pub nullifier: Vec<u8>,
    pub script_root_hex: String,
    pub script_code: String,
    pub inputs: Vec<u64>,
}

/// What the handlers read of a note created in a block, as plain values.
#[derive(Debug, Clone)]
pub struct OutputNoteData {
    pub note_id: Vec<u8>,
    pub note_id_hex: String,
    pub recipient: Option<Vec<u8>>,
    pub sender_bech: String,
    pub note_type: DatabaseMidenNoteType,
    pub tag: u32,
    pub batch_index: usize,
    pub note_index_in_batch: usize,
    pub leaf_index: u16,
    pub public: Option<PublicNoteData>,
    pub attachments: Vec<AttachmentData>,
    pub assets: Option<Vec<NoteAssetData>>,
}

/// The rows that the notes created in a block produce.
#[derive(Debug, Clone)]
pub struct NoteRows {
    pub notes: Vec<DatabaseNote>,
    pub assets: Vec<DatabaseNoteAsset>,
    pub attachments: Vec<DatabaseNoteAttachment>,
    pub tags: Vec<DatabaseNoteTag>,
}

/// Trims whitespace and any leading `0x` and lowercases a script root.
pub fn normalize_script_root(script_root: String) -> (r: String)
    ensures
        r@ == normalized_hex_root(script_root@),
{
    normalize_hex_root(script_root.as_str())
}

pub open spec fn opt_bytes_view(o: Option<Vec<u8>>) -> Option<Seq<u8>> {
    match o {
        Some(v) => Some(v@),
        None => None,
    }
}

/// The `note` row of a note created in the block.
pub open spec fn is_note_row(row: DatabaseNote, header: BlockHeaderData, note: OutputNoteData) -> bool {
    &&& row.note_id@ == note.note_id@
    &&& opt_bytes_view(row.recipient) == opt_bytes_view(note.recipient)
    &&& row.sender@ == note.sender_bech@
    &&& row.note_type == note.note_type
    &&& row.note_tag == note.tag
    &&& row.block_number == header.block_number
    &&& row.timestamp == header.timestamp
    &&& row.batch_index == note.batch_index as u16
    &&& row.note_index_in_batch == note.note_index_in_batch as u16
    &&& row.leaf_index == note.leaf_index
    &&& row.internal_time == internal_time(header.block_number, note.leaf_index as u32, 0)
    &&& match note.public {
        Some(p) => {
            &&& row.nullifier matches Some(n) && n@ == p.nullifier@
            &&& row.script_root matches Some(s) && s@ == normalized_hex_root(p.script_root_hex@)
            &&& row.script_code matches Some(c) && c@ == p.script_code@
            &&& row.inputs matches Some(v) && v@ == p.inputs@
        },
        None => {
            &&& row.nullifier is None
            &&& row.script_root is None
            &&& row.script_code is None
            &&& row.inputs is None
        },
    }
}

/// (id, note id, position, scheme, content) of an attachment row.
pub open spec fn attachment_view(r: DatabaseNoteAttachment) -> (
    Seq<char>,
    Seq<u8>,
    i16,
    i32,
    Option<Seq<u8>>,
) {
    (r.note_attachment_id@, r.note_id@, r.position, r.scheme, opt_bytes_view(r.content))
}

/// The attachment rows of one note: `{note id}_{position}`.
pub open spec fn note_attachment_rows(note: OutputNoteData) -> Seq<
    (Seq<char>, Seq<u8>, i16, i32, Option<Seq<u8>>),
> {
    Seq::new(
        note.attachments@.len(),
        |p: int|
            (
                note.note_id_hex@ + "_"@ + decimal(p as nat),
                note.note_id@,
                p as i16,
                note.attachments@[p].scheme as i32,
                Some(note.attachments@[p].bytes@),
            ),
    )
}

/// (id, note id, faucet id prefix, amount) of an asset row.
pub open spec fn asset_view(r: DatabaseNoteAsset) -> (Seq<char>, Seq<u8>, Seq<u8>, u64) {
    (r.note_asset_id@, r.note_id@, r.faucet_id_prefix@, r.amount)
}

/// The asset rows of one note: `{note id}_{faucet id}`, with the fungible amount, or 1 for
/// a non-fungible asset.
pub open spec fn note_asset_rows(note: OutputNoteData) -> Seq<(Seq<char>, Seq<u8>, Seq<u8>, u64)> {
    match note.assets {
        Some(assets) => assets@.map_values(
            |a: NoteAssetData|
                (
                    note.note_id_hex@ + "_"@ + a.faucet_id_hex@,
                    note.note_id@,
                    a.faucet_id_prefix@,
                    match a.fungible_amount {
                        Some(amount) => amount,
                        None => 1u64,
                    },
                ),
        ),
        None => Seq::empty(),
    }
}

pub open spec fn all_attachment_rows(notes: Seq<OutputNoteData>) -> Seq<
    (Seq<char>, Seq<u8>, i16, i32, Option<Seq<u8>>),
>
    decreases notes.len(),
{
    if notes.len() == 0 {
        Seq::empty()
    } else {
        all_attachment_rows(notes.drop_last()) + note_attachment_rows(notes.last())
    }
}

pub open spec fn all_asset_rows(notes: Seq<OutputNoteData>) -> Seq<(Seq<char>, Seq<u8>, Seq<u8>, u64)>
    decreases notes.len(),
{
    if notes.len() == 0 {
        Seq::empty()
    } else {
        all_asset_rows(notes.drop_last()) + note_asset_rows(notes.last())
    }
}

/// How many of the notes carry the tag.
pub open spec fn tag_count(notes: Seq<OutputNoteData>, tag: u32) -> nat
    decreases notes.len(),
{
    if notes.len() == 0 {
        0
    } else {
        tag_count(notes.drop_last(), tag) + if notes.last().tag == tag {
            1nat
        } else {
            0nat
        }
    }
}

/// The sum of the tag counts.
pub open spec fn tag_total(tags: Seq<DatabaseNoteTag>) -> nat
    decreases tags.len(),
{
    if tags.len() == 0 {
        0
    } else {
        tag_total(tags.drop_last()) + tags.last().number_of_notes as nat
    }
}

/// The tag counts of the notes: one row per distinct tag that some note carries, holding
/// how many notes carry it.
pub open spec fn is_tag_count_of(tags: Seq<DatabaseNoteTag>, notes: Seq<OutputNoteData>) -> bool {
    &&& forall|k: int| 0 <= k < tags.len() ==> (#[trigger] tags[k]).number_of_notes > 0
    &&& forall|a: int, b: int|
        0 <= a < b < tags.len() ==> (#[trigger] tags[a]).note_tag != (#[trigger] tags[b]).note_tag
    &&& forall|k: int|
        0 <= k < tags.len() ==> (#[trigger] tags[k]).number_of_notes == tag_count(
            notes,
            tags[k].note_tag,
        )
    &&& forall|t: u32|
        #![trigger tag_count(notes, t)]
        tag_count(notes, t) > 0 ==> exists|k: int| 0 <= k < tags.len() && tags[k].note_tag == t
}

proof fn lemma_tag_total_update(tags: Seq<DatabaseNoteTag>, k: int, row: DatabaseNoteTag)
    requires
        0 <= k < tags.len(),
    ensures
        tag_total(tags.update(k, row)) + tags[k].number_of_notes == tag_total(tags)
            + row.number_of_notes,
    decreases tags.len(),
{
    if k < tags.len() - 1 {
        lemma_tag_total_update(tags.drop_last(), k, row);
        assert(tags.update(k, row).drop_last() == tags.drop_last().update(k, row));
    } else {
        assert(tags.update(k, row).drop_last() == tags.drop_last());
    }
}

/// Where a note sits in the block: its row holds the note's batch, its index within that
/// batch and its leaf index, each taken from the note itself (so two notes that differ only
/// in their batch have the same index within the batch), and its internal time orders it by
/// leaf index.
pub proof fn lemma_note_row_position(row: DatabaseNote, header: BlockHeaderData, note: OutputNoteData)
    requires
        is_note_row(row, header, note),
    ensures
        row.batch_index as int == note.batch_index % 0x1_0000,
        row.note_index_in_batch as int == note.note_index_in_batch % 0x1_0000,
        row.leaf_index == note.leaf_index,
        row.internal_time == header.block_number * 100_000_000_000_000_000_000int + note.leaf_index
            * 10_000_000_000int,
{
    let (rb, nb) = (row.batch_index, note.batch_index);
    let (ri, ni) = (row.note_index_in_batch, note.note_index_in_batch);
    assert(rb as int == nb % 0x1_0000) by (bit_vector)
        requires
            rb == nb as u16,
    ;
    assert(ri as int == ni % 0x1_0000) by (bit_vector)
        requires
            ri == ni as u16,
    ;
}

/// What a note row discloses depends on the note being public: a public note's row holds
/// its nullifier, script code, inputs and a script root with no uppercase ASCII letter; a
/// private note's row holds none of them.
pub proof fn lemma_note_row_disclosure(row: DatabaseNote, header: BlockHeaderData, note: OutputNoteData)
    requires
        is_note_row(row, header, note),
    ensures
        note.public is Some <==> row.nullifier is Some,
        note.public is Some <==> row.script_root is Some,
        note.public is Some <==> row.script_code is Some,
        note.public is Some <==> row.inputs is Some,
        row.script_root matches Some(root) ==> forall|i: int|
            0 <= i < root@.len() ==> !is_ascii_upper(#[trigger] root@[i]),
{
    match note.public {
        Some(p) => {
            crate::db::note_verified_script::lemma_normalized_root_is_lowercase(p.script_root_hex@);
        },
        None => {},
    }
}

/// The rows of the notes created in a block: one `note` row per note, in order, with its
/// attachments and assets, and the number of notes per tag.
pub fn note_rows(header: &BlockHeaderData, notes: &Vec<OutputNoteData>) -> (r: NoteRows)
    requires
        notes.len() <= u32::MAX,
    ensures
        r.notes.len() == notes.len(),
        forall|i: int| 0 <= i < notes.len() ==> is_note_row(#[trigger] r.notes@[i], *header, notes@[i]),
        r.attachments@.map_values(|a: DatabaseNoteAttachment| attachment_view(a))
            == all_attachment_rows(notes@),
        r.assets@.map_values(|a: DatabaseNoteAsset| asset_view(a)) == all_asset_rows(notes@),
        is_tag_count_of(r.tags@, notes@),
        tag_total(r.tags@) == notes.len(),
{
    let mut rows: Vec<DatabaseNote> = Vec::new();
    let mut assets: Vec<DatabaseNoteAsset> = Vec::new();
    let mut attachments: Vec<DatabaseNoteAttachment> = Vec::new();
    let mut tags: Vec<DatabaseNoteTag> = Vec::new();
    for i in 0..notes.len()
        invariant
            notes.len() <= u32::MAX,
            rows.len() == i,
            forall|k: int| 0 <= k < i ==> is_note_row(#[trigger] rows@[k], *header, notes@[k]),
            attachments@.map_values(|a: DatabaseNoteAttachment| attachment_view(a))
                == all_attachment_rows(notes@.take(i as int)),
            assets@.map_values(|a: DatabaseNoteAsset| asset_view(a)) == all_asset_rows(
                notes@.take(i as int),
            ),
            is_tag_count_of(tags@, notes@.take(i as int)),
            tag_total(tags@) == i,
    {
        let note = &notes[i];
        let ghost prev = notes@.take(i as int);
        let ghost next = notes@.take(i + 1);
        assert(next.drop_last() == prev);
        assert(next.last() == note);
        rows.push(note_row(header, note));

        // attachments
        let ghost att_base = attachments@.map_values(|a: DatabaseNoteAttachment| attachment_view(a));
        for p in 0..note.attachments.len()
            invariant
                attachments@.map_values(|a: DatabaseNoteAttachment| attachment_view(a)) == att_base
                    + note_attachment_rows(*note).take(p as int),
        {
            let mut id = note.note_id_hex.clone();
            id.append("_");
            push_decimal(&mut id, p as u64);
            let row = DatabaseNoteAttachment {
                note_attachment_id: id,
                note_id: note.note_id.clone(),
                position: p as i16,
                scheme: note.attachments[p].scheme as i32,
                content: Some(note.attachments[p].bytes.clone()),
            };
            assert(attachment_view(row) == note_attachment_rows(*note)[p as int]);
            let ghost before = attachments@;
            attachments.push(row);
            assert(attachments@.map_values(|a: DatabaseNoteAttachment| attachment_view(a))
                =~= before.map_values(|a: DatabaseNoteAttachment| attachment_view(a)).push(
                attachment_view(row)));
            assert(note_attachment_rows(*note).take(p + 1) =~= note_attachment_rows(*note).take(
                p as int,
            ).push(note_attachment_rows(*note)[p as int]));
        }
        assert(note_attachment_rows(*note).take(note.attachments.len() as int)
            == note_attachment_rows(*note));

        // assets
        let ghost asset_base = assets@.map_values(|a: DatabaseNoteAsset| asset_view(a));
        match &note.assets {
            Some(note_assets) => {
                for j in 0..note_assets.len()
                    invariant
                        note.assets == Some(*note_assets),
                        assets@.map_values(|a: DatabaseNoteAsset| asset_view(a)) == asset_base
                            + note_asset_rows(*note).take(j as int),
                {
                    let asset = &note_assets[j];
                    let amount: u64 = match asset.fungible_amount {
                        Some(amount) => amount,
                        None => 1,
                    };
                    let row = DatabaseNoteAsset {
                        note_asset_id: join_id(note.note_id_hex.as_str(), asset.faucet_id_hex.as_str()),
                        note_id: note.note_id.clone(),
                        faucet_id_prefix: asset.faucet_id_prefix.clone(),
                        amount,
                    };
                    assert(asset_view(row) == note_asset_rows(*note)[j as int]);
                    let ghost before = assets@;
                    assets.push(row);
                    assert(assets@.map_values(|a: DatabaseNoteAsset| asset_view(a))
                        =~= before.map_values(|a: DatabaseNoteAsset| asset_view(a)).push(
                        asset_view(row)));
                    assert(note_asset_rows(*note).take(j + 1) =~= note_asset_rows(*note).take(
                        j as int,
                    ).push(note_asset_rows(*note)[j as int]));
                }
                assert(note_asset_rows(*note).take(note_assets.len() as int) == note_asset_rows(*note));
            },
            None => {
                assert(note_asset_rows(*note) =~= Seq::empty());
                assert(asset_base + note_asset_rows(*note) =~= asset_base);
            },
        }

        // tags
        let tag = note.tag;
        let mut k: usize = 0;
        while k < tags.len() && tags[k].note_tag != tag
            invariant
                k <= tags.len(),
                forall|m: int| 0 <= m < k ==> tags@[m].note_tag != tag,
            decreases tags.len() - k,
        {
            k = k + 1;
        }
        let ghost old_tags = tags@;
        proof {
            assert forall|t: u32| #[trigger] tag_count(next, t) == tag_count(prev, t) + if t == tag {
                1nat
            } else {
                0nat
            } by {}
        }
        if k < tags.len() {
            let count = tags[k].number_of_notes;
            assert(count == tag_count(prev, tag));
            assert(count <= i) by {
                lemma_tag_count_bound(prev, tag);
            }
            tags.set(k, DatabaseNoteTag { note_tag: tag, number_of_notes: count + 1 });
            proof {
                lemma_tag_total_update(old_tags, k as int, tags@[k as int]);
                assert(tags@ == old_tags.update(k as int, tags@[k as int]));
                assert forall|t: u32| #![trigger tag_count(next, t)] tag_count(next, t) > 0 implies exists|m: int|
                    0 <= m < tags@.len() && tags@[m].note_tag == t by {
                    if t != tag {
                        let m = choose|m: int| 0 <= m < old_tags.len() && old_tags[m].note_tag == t;
                        assert(tags@[m].note_tag == t);
                    } else {
                        assert(tags@[k as int].note_tag == t);
                    }
                }
            }
        } else {
            tags.push(DatabaseNoteTag { note_tag: tag, number_of_notes: 1 });
            proof {
                assert(tags@.drop_last() == old_tags);
                assert(tag_count(prev, tag) == 0);
                assert forall|t: u32| #![trigger tag_count(next, t)] tag_count(next, t) > 0 implies exists|m: int|
                    0 <= m < tags@.len() && tags@[m].note_tag == t by {
                    if t != tag {
                        let m = choose|m: int| 0 <= m < old_tags.len() && old_tags[m].note_tag == t;
                        assert(tags@[m].note_tag == t);
                    } else {
                        assert(tags@[old_tags.len() as int].note_tag == t);
                    }
                }
            }
        }
    }
    assert(notes@.take(notes.len() as int) == notes@);
    NoteRows { notes: rows, assets, attachments, tags }
}

proof fn lemma_tag_count_bound(notes: Seq<OutputNoteData>, tag: u32)
    ensures
        tag_count(notes, tag) <= notes.len(),
    decreases notes.len(),
{
    if notes.len() > 0 {
        lemma_tag_count_bound(notes.drop_last(), tag);
    }
}

fn clone_opt_bytes(o: &Option<Vec<u8>>) -> (r: Option<Vec<u8>>)
    ensures
        opt_bytes_view(r) == opt_bytes_view(*o),
{
    match o {
        Some(v) => Some(v.clone()),
        None => None,
    }
}

fn note_row(header: &BlockHeaderData, note: &OutputNoteData) -> (row: DatabaseNote)
    ensures
        is_note_row(row, *header, *note),
{
    let mut row = DatabaseNote {
        note_id: note.note_id.clone(),
        recipient: clone_opt_bytes(&note.recipient),
        sender: note.sender_bech.clone(),
        note_type: note.note_type,
        note_tag: note.tag,
        nullifier: None,
        script_root: None,
        script_code: None,
        inputs: None,
        block_number: header.block_number,
        timestamp: header.timestamp,
        batch_index: note.batch_index as u16,
        note_index_in_batch: note.note_index_in_batch as u16,
        leaf_index: note.leaf_index,
        internal_time: get_internal_time(header.block_number, note.leaf_index as u32, 0),
    };
    match &note.public {
        Some(public) => {
            row.nullifier = Some(public.nullifier.clone());
            row.script_root = Some(normalize_script_root(public.script_root_hex.clone()));
            row.script_code = Some(public.script_code.clone());
            row.inputs = Some(public.inputs.clone());
        },
        None => {},
    }
    row
}

} // verus!
