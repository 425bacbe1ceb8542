use vstd::prelude::*;

use crate::db::models::DatabaseNoteVerifiedScript;

use crate::utils::text::{
    ascii_lower, ascii_lowercase, has_hex_prefix, is_ascii_upper, is_unicode_whitespace,
    normalize_hex_root, normalized_hex_root, strip_hex_prefixes, trim, trim_end, trim_start,
};

verus! {

/// The canonical spelling of a script root: surrounding whitespace trimmed, every leading
/// `0x` removed, ASCII letters in lowercase.
pub fn canonicalize_script_root(script_root: String) -> (r: String)
    ensures
        r@ == normalized_hex_root(script_root@),
{
    normalize_hex_root(script_root.as_str())
}

proof fn lemma_ascii_lower_idempotent(c: char)
    ensures
        ascii_lower(ascii_lower(c)) == ascii_lower(c),
        !is_ascii_upper(ascii_lower(c)),
{
    if is_ascii_upper(c) {
        let u = ((c as u32) + 32) as u32;
        assert(97 <= u <= 122);
        assert((u as char) as u32 == u);
    }
}

/// A normalized root holds no uppercase ASCII letter: lowercasing it changes nothing.
pub proof fn lemma_normalized_root_is_lowercase(s: Seq<char>)
    ensures
        ascii_lowercase(normalized_hex_root(s)) == normalized_hex_root(s),
        forall|i: int|
            0 <= i < normalized_hex_root(s).len() ==> !is_ascii_upper(
                #[trigger] normalized_hex_root(s)[i],
            ),
{
    let m = strip_hex_prefixes(trim(s));
    assert forall|i: int| 0 <= i < m.len() implies ascii_lower(ascii_lower(#[trigger] m[i]))
        == ascii_lower(m[i]) && !is_ascii_upper(ascii_lower(m[i])) by {
        lemma_ascii_lower_idempotent(m[i]);
    }
    assert(ascii_lowercase(ascii_lowercase(m)) =~= ascii_lowercase(m));
}

/// A normalized root does not begin with `0x`, unless what remains after trimming and
/// removing the leading `0x` begins with an uppercase `0X`, which lowercasing turns into `0x`.
pub proof fn lemma_normalized_root_has_no_prefix(s: Seq<char>)
    requires
        !(strip_hex_prefixes(trim(s)).len() >= 2 && strip_hex_prefixes(trim(s))[0] == '0'
            && strip_hex_prefixes(trim(s))[1] == 'X'),
    ensures
        !has_hex_prefix(normalized_hex_root(s)),
{
    lemma_stripped_has_no_prefix(trim(s));
    let m = strip_hex_prefixes(trim(s));
    if m.len() >= 2 {
        assert(normalized_hex_root(s)[0] == ascii_lower(m[0]));
        assert(normalized_hex_root(s)[1] == ascii_lower(m[1]));
        assert(('0' as u32) == 48);
        assert(('x' as u32) == 120);
        assert(('X' as u32) == 88);
        if is_ascii_upper(m[1]) {
            let u = ((m[1] as u32) + 32) as u32;
            assert((u as char) as u32 == u);
            if u == 120 {
                vstd::utf8::char_u32_cast(m[1], 88);
            }
        }
    }
}

proof fn lemma_stripped_has_no_prefix(s: Seq<char>)
    ensures
        !has_hex_prefix(strip_hex_prefixes(s)),
    decreases s.len(),
{
    if has_hex_prefix(s) {
        lemma_stripped_has_no_prefix(s.subrange(2, s.len() as int));
    }
}

/// Normalizing a normalized root changes nothing, provided it has no whitespace at either end
/// and does not begin with `0x` (on such a root a second pass would trim or strip more).
pub proof fn lemma_normalize_hex_root_idempotent(s: Seq<char>)
    requires
        normalized_hex_root(s).len() > 0 ==> !is_unicode_whitespace(normalized_hex_root(s)[0])
            && !is_unicode_whitespace(normalized_hex_root(s).last()),
        !has_hex_prefix(normalized_hex_root(s)),
    ensures
        normalized_hex_root(normalized_hex_root(s)) == normalized_hex_root(s),
{
    let c = normalized_hex_root(s);
    assert(trim_start(c) == c);
    assert(trim_end(c) == c);
    assert(strip_hex_prefixes(trim(c)) == c);
    lemma_normalized_root_is_lowercase(s);
}

/// `row` is what is stored for `script`: the same record with its root in canonical spelling.
pub open spec fn is_canonical_script_row(
    row: DatabaseNoteVerifiedScript,
    script: DatabaseNoteVerifiedScript,
) -> bool {
    &&& row.id == script.id
    &&& row.name == script.name
    &&& row.script_root@ == normalized_hex_root(script.script_root@)
    &&& row.rust == script.rust
    &&& row.masm == script.masm
    &&& row.timestamp == script.timestamp
    &&& row.is_custom == script.is_custom
}

/// The rows written for the standard note scripts: each script, in order, with its root
/// canonicalized.
pub fn canonical_script_rows(scripts: Vec<DatabaseNoteVerifiedScript>) -> (rows: Vec<
    DatabaseNoteVerifiedScript,
>)
    ensures
        rows.len() == scripts.len(),
        forall|i: int|
            0 <= i < rows.len() ==> is_canonical_script_row(#[trigger] rows@[i], scripts@[i]),
{
    let ghost all = scripts@;
    let mut rest = scripts;
    let mut rows: Vec<DatabaseNoteVerifiedScript> = Vec::new();
    let n = rest.len();
    let mut i: usize = 0;
    while i < n
        invariant
            n == all.len(),
            i <= n,
            rest@ == all.skip(i as int),
            rows.len() == i,
            forall|k: int| 0 <= k < i ==> is_canonical_script_row(#[trigger] rows@[k], all[k]),
        decreases n - i,
    {
        assert(rest@[0] == all[i as int]);
        let DatabaseNoteVerifiedScript {
            id,
            name,
            script_root,
            rust,
            masm,
            timestamp,
            is_custom,
        } = rest.remove(0);
        assert(rest@ == all.skip(i + 1));
        let script_root = canonicalize_script_root(script_root);
        rows.push(
            DatabaseNoteVerifiedScript { id, name, script_root, rust, masm, timestamp, is_custom },
        );
        i = i + 1;
    }
    rows
}

} // verus!
