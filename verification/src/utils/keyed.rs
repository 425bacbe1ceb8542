use vstd::prelude::*;

verus! {

/// No two rows have the same key.
pub open spec fn keys_unique<R>(rows: Seq<R>, key: spec_fn(R) -> Seq<char>) -> bool {
    forall|a: int, b: int| 0 <= a < b < rows.len() ==> key(#[trigger] rows[a]) != key(#[trigger] rows[b])
}

/// The rows as a map from each row's key to the row's view (a later row wins a key).
pub open spec fn keyed<R, V>(rows: Seq<R>, key: spec_fn(R) -> Seq<char>, view: spec_fn(R) -> V) -> Map<
    Seq<char>,
    V,
>
    decreases rows.len(),
{
    if rows.len() == 0 {
        Map::empty()
    } else {
        keyed(rows.drop_last(), key, view).insert(key(rows.last()), view(rows.last()))
    }
}

/// A key is in the map exactly when some row has it, and with unique keys the map holds
/// each row's view under its key.
pub proof fn lemma_keyed_contents<R, V>(rows: Seq<R>, key: spec_fn(R) -> Seq<char>, view: spec_fn(R) -> V)
    requires
        keys_unique(rows, key),
    ensures
        forall|x: Seq<char>|
            #[trigger] keyed(rows, key, view).dom().contains(x) <==> exists|i: int|
                0 <= i < rows.len() && key(rows[i]) == x,
        forall|i: int|
            0 <= i < rows.len() ==> keyed(rows, key, view)[key(#[trigger] rows[i])] == view(rows[i]),
    decreases rows.len(),
{
    if rows.len() > 0 {
        let init = rows.drop_last();
        assert(keys_unique(init, key)) by {
            assert forall|a: int, b: int| 0 <= a < b < init.len() implies key(#[trigger] init[a])
                != key(#[trigger] init[b]) by {
                assert(init[a] == rows[a] && init[b] == rows[b]);
            }
        }
        lemma_keyed_contents(init, key, view);
        let m = keyed(rows, key, view);
        assert forall|x: Seq<char>| #[trigger] m.dom().contains(x) implies exists|i: int|
            0 <= i < rows.len() && key(rows[i]) == x by {
            if x != key(rows.last()) {
                assert(keyed(init, key, view).dom().contains(x));
                let i = choose|i: int| 0 <= i < init.len() && key(init[i]) == x;
                assert(rows[i] == init[i]);
            } else {
                assert(key(rows[rows.len() - 1]) == x);
            }
        }
        assert forall|x: Seq<char>| (exists|i: int| 0 <= i < rows.len() && key(rows[i]) == x) implies #[trigger] m.dom().contains(x) by {
            let i = choose|i: int| 0 <= i < rows.len() && key(rows[i]) == x;
            if i < rows.len() - 1 {
                assert(init[i] == rows[i]);
            }
        }
        assert forall|i: int| 0 <= i < rows.len() implies m[key(#[trigger] rows[i])] == view(
            rows[i],
        ) by {
            if i < rows.len() - 1 {
                assert(init[i] == rows[i]);
                assert(key(rows[i]) != key(rows[rows.len() - 1]));
            }
        }
    }
}

/// Appending a row with a new key adds it to the map.
pub proof fn lemma_keyed_push<R, V>(
    rows: Seq<R>,
    r: R,
    key: spec_fn(R) -> Seq<char>,
    view: spec_fn(R) -> V,
)
    requires
        keys_unique(rows, key),
        !keyed(rows, key, view).dom().contains(key(r)),
    ensures
        keys_unique(rows.push(r), key),
        keyed(rows.push(r), key, view) == keyed(rows, key, view).insert(key(r), view(r)),
{
    lemma_keyed_contents(rows, key, view);
    let s = rows.push(r);
    assert(s.drop_last() == rows);
    assert forall|a: int, b: int| 0 <= a < b < s.len() implies key(#[trigger] s[a]) != key(
        #[trigger] s[b],
    ) by {
        if b == rows.len() {
            assert(s[a] == rows[a]);
        } else {
            assert(s[a] == rows[a] && s[b] == rows[b]);
        }
    }
}

/// Replacing the row at `k` by one with the same key updates the map at that key.
pub proof fn lemma_keyed_update<R, V>(
    rows: Seq<R>,
    k: int,
    r: R,
    key: spec_fn(R) -> Seq<char>,
    view: spec_fn(R) -> V,
)
    requires
        keys_unique(rows, key),
        0 <= k < rows.len(),
        key(r) == key(rows[k]),
    ensures
        keys_unique(rows.update(k, r), key),
        keyed(rows.update(k, r), key, view) == keyed(rows, key, view).insert(key(r), view(r)),
    decreases rows.len(),
{
    let s = rows.update(k, r);
    assert forall|a: int, b: int| 0 <= a < b < s.len() implies key(#[trigger] s[a]) != key(
        #[trigger] s[b],
    ) by {
        assert(key(s[a]) == key(rows[a]) && key(s[b]) == key(rows[b]));
    }
    let init = rows.drop_last();
    assert(keys_unique(init, key)) by {
        assert forall|a: int, b: int| 0 <= a < b < init.len() implies key(#[trigger] init[a])
            != key(#[trigger] init[b]) by {
            assert(init[a] == rows[a] && init[b] == rows[b]);
        }
    }
    if k == rows.len() - 1 {
        assert(s.drop_last() == init);
        assert(keyed(s, key, view) =~= keyed(init, key, view).insert(key(r), view(r)));
        assert(keyed(rows, key, view).insert(key(r), view(r)) =~= keyed(init, key, view).insert(
            key(r),
            view(r),
        ));
    } else {
        lemma_keyed_update(init, k, r, key, view);
        assert(s.drop_last() == init.update(k, r));
        assert(key(rows.last()) != key(r)) by {
            assert(rows.last() == rows[rows.len() - 1]);
        }
        assert(keyed(s, key, view) =~= keyed(rows, key, view).insert(key(r), view(r)));
    }
}


/// A row stored under a string key: later rows with the same key replace earlier ones.
pub trait KeyedRow: Sized + View {
    spec fn row_key(&self) -> Seq<char>;

    fn key_string(&self) -> (r: &String)
        ensures
            r@ == self.row_key(),
    ;
}

pub open spec fn key_fn<R: KeyedRow>() -> spec_fn(R) -> Seq<char> {
    |r: R| r.row_key()
}

pub open spec fn view_fn<R: KeyedRow>() -> spec_fn(R) -> R::V {
    |r: R| r@
}

/// The rows as a map from key to view.
pub open spec fn row_map<R: KeyedRow>(rows: Seq<R>) -> Map<Seq<char>, R::V> {
    keyed(rows, key_fn::<R>(), view_fn::<R>())
}

/// The position of the row with the given key, if there is one.
pub fn find_key<R: KeyedRow>(rows: &Vec<R>, key: &String) -> (r: Option<usize>)
    requires
        keys_unique(rows@, key_fn::<R>()),
    ensures
        r matches Some(k) ==> k < rows.len() && rows@[k as int].row_key() == key@
            && row_map(rows@).dom().contains(key@),
        r is None ==> !row_map(rows@).dom().contains(key@),
{
    proof {
        lemma_keyed_contents(rows@, key_fn::<R>(), view_fn::<R>());
    }
    let mut k: usize = 0;
    while k < rows.len()
        invariant
            k <= rows.len(),
            keys_unique(rows@, key_fn::<R>()),
            forall|m: int| 0 <= m < k ==> rows@[m].row_key() != key@,
        decreases rows.len() - k,
    {
        if *rows[k].key_string() == *key {
            assert(key_fn::<R>()(rows@[k as int]) == key@);
            proof {
                lemma_keyed_contents(rows@, key_fn::<R>(), view_fn::<R>());
            }
            assert(keyed(rows@, key_fn::<R>(), view_fn::<R>()).dom().contains(key@));
            return Some(k);
        }
        k = k + 1;
    }
    proof {
        assert forall|i: int| 0 <= i < rows.len() implies key_fn::<R>()(rows@[i]) != key@ by {}
    }
    None
}

/// Stores `row` under its key: replaces the row with the same key, or appends it.
pub fn upsert<R: KeyedRow>(rows: &mut Vec<R>, row: R)
    requires
        keys_unique(old(rows)@, key_fn::<R>()),
    ensures
        keys_unique(final(rows)@, key_fn::<R>()),
        row_map(final(rows)@) == row_map(old(rows)@).insert(row.row_key(), row@),
{
    let found = find_key(rows, row.key_string());
    match found {
        Some(k) => {
            proof {
                lemma_keyed_update(rows@, k as int, row, key_fn::<R>(), view_fn::<R>());
            }
            rows.set(k, row);
        },
        None => {
            proof {
                lemma_keyed_push(rows@, row, key_fn::<R>(), view_fn::<R>());
            }
            rows.push(row);
        },
    }
}

} // verus!
