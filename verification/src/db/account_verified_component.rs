use vstd::prelude::*;

use crate::db::models::DatabaseAccountVerifiedComponent;

use crate::utils::text::{
    chars_less, chars_lt, chars_of, lemma_chars_lt_asymmetric, lemma_chars_lt_irreflexive,
    lemma_chars_lt_total, lemma_chars_lt_transitive,
};

verus! {

/// The character sequences of a list of strings.
pub open spec fn string_views(s: Seq<String>) -> Seq<Seq<char>> {
    s.map_values(|x: String| x@)
}

/// Each element comes strictly before the next one (so no element occurs twice).
pub open spec fn strictly_ascending(s: Seq<Seq<char>>) -> bool {
    forall|i: int, j: int| 0 <= i < j < s.len() ==> chars_lt(#[trigger] s[i], #[trigger] s[j])
}

/// `out` is the canonical form of the digest list `input`: its non-empty digests, sorted
/// in ascending order, each once.
pub open spec fn is_canonical_digest_list(out: Seq<Seq<char>>, input: Seq<Seq<char>>) -> bool {
    &&& strictly_ascending(out)
    &&& forall|x: Seq<char>| #[trigger] out.contains(x) <==> (x.len() > 0 && input.contains(x))
}

/// Two strictly ascending lists with the same elements are equal.
pub proof fn lemma_strictly_ascending_unique(a: Seq<Seq<char>>, b: Seq<Seq<char>>)
    requires
        strictly_ascending(a),
        strictly_ascending(b),
        forall|x: Seq<char>| #[trigger] a.contains(x) <==> b.contains(x),
    ensures
        a == b,
    decreases a.len(),
{
    if a.len() == 0 {
        if b.len() > 0 {
            assert(b.contains(b[0]));
            assert(a.contains(b[0]));
        }
        assert(b.len() == 0);
        assert(a =~= b);
    } else {
        assert(a.contains(a[0]));
        assert(b.contains(a[0]));
        let k = choose|k: int| 0 <= k < b.len() && b[k] == a[0];
        assert(b.contains(b[0]));
        assert(a.contains(b[0]));
        let m = choose|m: int| 0 <= m < a.len() && a[m] == b[0];
        if k > 0 {
            assert(chars_lt(b[0], b[k]));
            if m == 0 {
                lemma_chars_lt_irreflexive(a[0]);
            } else {
                assert(chars_lt(a[0], a[m]));
                lemma_chars_lt_asymmetric(a[0], b[0]);
            }
        }
        assert(b[0] == a[0]);
        let a1 = a.drop_first();
        let b1 = b.drop_first();
        assert forall|x: Seq<char>| #[trigger] a1.contains(x) implies b1.contains(x) by {
            let i = choose|i: int| 0 <= i < a1.len() && a1[i] == x;
            assert(a.contains(x) && a[i + 1] == x);
            assert(b.contains(x));
            assert(chars_lt(a[0], a[i + 1]));
            let j = choose|j: int| 0 <= j < b.len() && b[j] == x;
            if j == 0 {
                lemma_chars_lt_irreflexive(x);
            }
            assert(b1[j - 1] == x);
        }
        assert forall|x: Seq<char>| #[trigger] b1.contains(x) implies a1.contains(x) by {
            let i = choose|i: int| 0 <= i < b1.len() && b1[i] == x;
            assert(b.contains(x) && b[i + 1] == x);
            assert(a.contains(x));
            assert(chars_lt(b[0], b[i + 1]));
            let j = choose|j: int| 0 <= j < a.len() && a[j] == x;
            if j == 0 {
                lemma_chars_lt_irreflexive(x);
            }
            assert(a1[j - 1] == x);
        }
        lemma_strictly_ascending_unique(a1, b1);
        assert(a =~= seq![a[0]] + a1);
        assert(b =~= seq![b[0]] + b1);
    }
}

/// Canonicalizing is idempotent: the canonical form of a canonical digest list is itself.
pub proof fn lemma_canonical_digests_idempotent(
    input: Seq<Seq<char>>,
    once: Seq<Seq<char>>,
    twice: Seq<Seq<char>>,
)
    requires
        is_canonical_digest_list(once, input),
        is_canonical_digest_list(twice, once),
    ensures
        twice == once,
{
    lemma_strictly_ascending_unique(twice, once);
}

/// The canonical form depends only on which digests occur, not on their order or on how
/// often they are repeated.
pub proof fn lemma_canonical_digests_order_independent(
    input1: Seq<Seq<char>>,
    input2: Seq<Seq<char>>,
    out1: Seq<Seq<char>>,
    out2: Seq<Seq<char>>,
)
    requires
        forall|x: Seq<char>| #[trigger] input1.contains(x) <==> input2.contains(x),
        is_canonical_digest_list(out1, input1),
        is_canonical_digest_list(out2, input2),
    ensures
        out1 == out2,
{
    lemma_strictly_ascending_unique(out1, out2);
}

/// Drops empty digests, sorts the rest in ascending order and removes duplicates.
pub fn canonicalize_procedure_digests(digests: Vec<String>) -> (out: Vec<String>)
    ensures
        is_canonical_digest_list(string_views(out@), string_views(digests@)),
{
    let ghost input = string_views(digests@);
    let mut out: Vec<String> = Vec::new();
    let mut keys: Vec<Vec<char>> = Vec::new();
    for i in 0..digests.len()
        invariant
            input == string_views(digests@),
            keys.len() == out.len(),
            forall|k: int| 0 <= k < keys.len() ==> (#[trigger] keys@[k])@ == out@[k]@,
            strictly_ascending(string_views(out@)),
            forall|x: Seq<char>| #[trigger]
                string_views(out@).contains(x) <==> (x.len() > 0 && input.take(i as int).contains(
                    x,
                )),
    {
        let ghost prev = string_views(out@);
        assert(input.take(i + 1) == input.take(i as int).push(input[i as int]));
        let d = chars_of(digests[i].as_str());
        let ghost dv = d@;
        assert(dv == input[i as int]);
        let mut j: usize = 0;
        let ghost mut inserted = false;
        if d.len() > 0 {
            while j < keys.len() && chars_less(keys[j].as_slice(), d.as_slice())
                invariant
                    dv == d@,
                    j <= keys.len(),
                    keys.len() == out.len(),
                    forall|k: int| 0 <= k < keys.len() ==> (#[trigger] keys@[k])@ == out@[k]@,
                    prev == string_views(out@),
                    forall|k: int| 0 <= k < j ==> chars_lt(#[trigger] prev[k], dv),
                decreases keys.len() - j,
            {
                assert(keys@[j as int]@ == prev[j as int]);
                assert(chars_lt(prev[j as int], dv));
                j = j + 1;
            }
            if j < keys.len() {
                assert(keys@[j as int]@ == prev[j as int]);
            }
            let duplicate = j < keys.len() && !chars_less(d.as_slice(), keys[j].as_slice());
            if duplicate {
                proof {
                    lemma_chars_lt_total(prev[j as int], dv);
                    assert(prev[j as int] == dv);
                }
            } else {
                proof {
                    if j < keys.len() {
                        lemma_chars_lt_total(prev[j as int], dv);
                        assert(chars_lt(dv, prev[j as int]));
                        assert forall|k: int| j <= k < prev.len() implies chars_lt(
                            dv,
                            #[trigger] prev[k],
                        ) by {
                            if k > j {
                                lemma_chars_lt_transitive(dv, prev[j as int], prev[k]);
                            }
                        }
                    }
                }
                let ghost keys_before = keys@;
                out.insert(j, digests[i].clone());
                keys.insert(j, d);
                proof {
                    inserted = true;
                    let now = string_views(out@);
                    assert(now =~= prev.insert(j as int, dv));
                    assert forall|a: int, b: int| 0 <= a < b < now.len() implies chars_lt(
                        #[trigger] now[a],
                        #[trigger] now[b],
                    ) by {
                        if b < j {
                        } else if a < j && b == j {
                        } else if a < j && b > j {
                            assert(now[b] == prev[b - 1]);
                        } else if a == j {
                            assert(now[b] == prev[b - 1]);
                        } else {
                            assert(now[a] == prev[a - 1] && now[b] == prev[b - 1]);
                        }
                    }
                    assert forall|k: int| 0 <= k < keys.len() implies (#[trigger] keys@[k])@
                        == out@[k]@ by {
                        if k > j {
                            assert(keys@[k] == keys_before[k - 1]);
                        }
                    }
                }
            }
        }
        proof {
            let now = string_views(out@);
            if inserted {
                assert(now =~= prev.insert(j as int, dv));
            } else {
                assert(now =~= prev);
            }
            assert forall|x: Seq<char>| #[trigger] now.contains(x) implies (x.len() > 0
                && input.take(i + 1).contains(x)) by {
                let k = choose|k: int| 0 <= k < now.len() && now[k] == x;
                if inserted && k == j {
                    assert(x == dv);
                    assert(input.take(i + 1)[i as int] == x);
                } else if inserted && k > j {
                    assert(prev[k - 1] == x);
                    assert(prev.contains(x));
                } else {
                    assert(prev[k] == x);
                    assert(prev.contains(x));
                }
                if prev.contains(x) {
                    let m = choose|m: int| 0 <= m < i && #[trigger] input.take(i as int)[m] == x;
                    assert(input.take(i + 1)[m] == x);
                }
            }
            assert forall|x: Seq<char>| x.len() > 0 && input.take(i + 1).contains(x) implies #[trigger] now.contains(x) by {
                let m = choose|m: int| 0 <= m < i + 1 && #[trigger] input.take(i + 1)[m] == x;
                if m < i {
                    assert(input.take(i as int)[m] == x);
                    assert(prev.contains(x));
                    let k = choose|k: int| 0 <= k < prev.len() && prev[k] == x;
                    if inserted && k >= j {
                        assert(now[k + 1] == x);
                    } else {
                        assert(now[k] == x);
                    }
                } else {
                    assert(x == dv);
                    if inserted {
                        assert(now[j as int] == x);
                    } else {
                        assert(prev[j as int] == x);
                        assert(now[j as int] == x);
                    }
                }
            }
        }
    }
    assert(input.take(digests.len() as int) == input);
    out
}

/// `row` is what is stored for `component`: the same record with its procedure digests in
/// canonical form.
pub open spec fn is_canonical_component_row(
    row: DatabaseAccountVerifiedComponent,
    component: DatabaseAccountVerifiedComponent,
) -> bool {
    &&& row.id == component.id
    &&& row.name == component.name
    &&& is_canonical_digest_list(
        string_views(row.procedure_digests@),
        string_views(component.procedure_digests@),
    )
    &&& row.rust == component.rust
    &&& row.masm == component.masm
    &&& row.timestamp == component.timestamp
    &&& row.is_custom == component.is_custom
}

/// The rows written for the standard components: each component, in order, with its
/// procedure digests canonicalized.
pub fn canonical_component_rows(components: Vec<DatabaseAccountVerifiedComponent>) -> (rows: Vec<
    DatabaseAccountVerifiedComponent,
>)
    ensures
        rows.len() == components.len(),
        forall|i: int|
            0 <= i < rows.len() ==> is_canonical_component_row(
                #[trigger] rows@[i],
                components@[i],
            ),
{
    let ghost all = components@;
    let mut rest = components;
    let mut rows: Vec<DatabaseAccountVerifiedComponent> = Vec::new();
    let n = rest.len();
    let mut i: usize = 0;
    while i < n
        invariant
            n == all.len(),
            i <= n,
            rest@ == all.skip(i as int),
            rows.len() == i,
            forall|k: int| 0 <= k < i ==> is_canonical_component_row(#[trigger] rows@[k], all[k]),
        decreases n - i,
    {
        assert(rest@[0] == all[i as int]);
        let DatabaseAccountVerifiedComponent {
            id,
            name,
            procedure_digests,
            rust,
            masm,
            timestamp,
            is_custom,
        } = rest.remove(0);
        assert(rest@ == all.skip(i + 1));
        let procedure_digests = canonicalize_procedure_digests(procedure_digests);
        rows.push(
            DatabaseAccountVerifiedComponent {
                id,
                name,
                procedure_digests,
                rust,
                masm,
                timestamp,
                is_custom,
            },
        );
        i = i + 1;
    }
    rows
}

} // verus!
