use std::collections::BTreeMap;
use vstd::prelude::*;

use crate::db::account::AccountMissingCodeCommitment;
use crate::db::models::DatabaseAccount;
use crate::indexer::handlers::account::{code_of, is_account_row, UpdatedAccountData};
use crate::indexer::handlers::block_data::BlockHeaderData;

verus! {

/// What the backfill reads of an account updated in a block: its id and, when the update
/// carries the account's code (a public deployment or code update), the code commitment.
#[derive(Debug, Clone)]
pub struct UpdatedAccountCode {
    pub account_id: Vec<u8>,
    pub code_commitment_hex: Option<String>,
}

/// The first position at which `updated` holds the account, if any.
pub open spec fn first_position(updated: Seq<UpdatedAccountCode>, account_id: Seq<u8>) -> Option<int>
    decreases updated.len(),
{
    if updated.len() == 0 {
        None
    } else {
        match first_position(updated.drop_last(), account_id) {
            Some(i) => Some(i),
            None => if updated.last().account_id@ == account_id {
                Some(updated.len() - 1)
            } else {
                None
            },
        }
    }
}

proof fn lemma_first_position(updated: Seq<UpdatedAccountCode>, account_id: Seq<u8>)
    ensures
        match first_position(updated, account_id) {
            Some(i) => 0 <= i < updated.len() && updated[i].account_id@ == account_id && forall|j: int|
                0 <= j < i ==> (#[trigger] updated[j]).account_id@ != account_id,
            None => forall|j: int|
                0 <= j < updated.len() ==> (#[trigger] updated[j]).account_id@ != account_id,
        },
    decreases updated.len(),
{
    if updated.len() > 0 {
        lemma_first_position(updated.drop_last(), account_id);
        let init = updated.drop_last();
        assert forall|j: int| 0 <= j < init.len() implies init[j] == updated[j] by {}
    }
}

fn same_bytes(a: &[u8], b: &[u8]) -> (r: bool)
    ensures
        r == (a@ == b@),
{
    if a.len() != b.len() {
        return false;
    }
    let mut i: usize = 0;
    while i < a.len()
        invariant
            a.len() == b.len(),
            i <= a.len(),
            a@.take(i as int) == b@.take(i as int),
        decreases a.len() - i,
    {
        if a[i] != b[i] {
            assert(a@[i as int] != b@[i as int]);
            return false;
        }
        assert(a@.take(i + 1) == a@.take(i as int).push(a@[i as int]));
        assert(b@.take(i + 1) == b@.take(i as int).push(b@[i as int]));
        i = i + 1;
    }
    assert(a@.take(a.len() as int) == a@);
    assert(b@.take(b.len() as int) == b@);
    true
}

/// The code commitment recorded in a block for an account: that of the first update of the
/// account in the block, when it carries the account's code.
pub open spec fn block_code_commitment(updated: Seq<UpdatedAccountCode>, account_id: Seq<u8>) -> Option<
    Seq<char>,
> {
    match first_position(updated, account_id) {
        Some(i) => match updated[i].code_commitment_hex {
            Some(c) => Some(c@),
            None => None,
        },
        None => None,
    }
}

/// The characters of an optional string.
pub open spec fn opt_chars(s: Option<String>) -> Option<Seq<char>> {
    match s {
        Some(x) => Some(x@),
        None => None,
    }
}

/// The code commitment of the given account as recorded in a block, if the block carries
/// the account's code (its deployment or a code update of a public account); the first
/// update of the account in the block decides.
pub fn code_commitment_from_block(updated_accounts: &Vec<UpdatedAccountCode>, account_id: &[u8]) -> (r:
    Option<String>)
    ensures
        opt_chars(r) == block_code_commitment(updated_accounts@, account_id@),
{
    proof {
        lemma_first_position(updated_accounts@, account_id@);
    }
    let mut i: usize = 0;
    while i < updated_accounts.len()
        invariant
            i <= updated_accounts.len(),
            forall|j: int| 0 <= j < i ==> (#[trigger] updated_accounts@[j]).account_id@ != account_id@,
            match first_position(updated_accounts@, account_id@) {
                Some(k) => 0 <= k < updated_accounts.len() && updated_accounts@[k].account_id@
                    == account_id@ && forall|j: int|
                    0 <= j < k ==> (#[trigger] updated_accounts@[j]).account_id@ != account_id@,
                None => forall|j: int|
                    0 <= j < updated_accounts.len() ==> (#[trigger] updated_accounts@[j]).account_id@
                        != account_id@,
            },
        decreases updated_accounts.len() - i,
    {
        if same_bytes(updated_accounts[i].account_id.as_slice(), account_id) {
            return match &updated_accounts[i].code_commitment_hex {
                Some(c) => Some(c.clone()),
                None => None,
            };
        }
        i = i + 1;
    }
    None
}

/// What the backfill reads of an updated account: its id, and the commitment of the code
/// that its patch carries, if any.
pub open spec fn account_code_view(acc: UpdatedAccountData) -> (Seq<u8>, Option<Seq<char>>) {
    (
        acc.account_id@,
        match code_of(acc) {
            Some(code) => Some(code.commitment_hex@),
            None => None,
        },
    )
}

/// The backfill's input for a block, read from the same account data as the account rows.
pub fn updated_account_codes(accounts: &Vec<UpdatedAccountData>) -> (r: Vec<UpdatedAccountCode>)
    ensures
        r.len() == accounts.len(),
        forall|i: int|
            0 <= i < r.len() ==> ((#[trigger] r@[i]).account_id@, opt_chars(r@[i].code_commitment_hex))
                == account_code_view(accounts@[i]),
{
    let mut r: Vec<UpdatedAccountCode> = Vec::new();
    for i in 0..accounts.len()
        invariant
            r.len() == i,
            forall|k: int|
                0 <= k < i ==> ((#[trigger] r@[k]).account_id@, opt_chars(r@[k].code_commitment_hex))
                    == account_code_view(accounts@[k]),
    {
        let acc = &accounts[i];
        let code_commitment_hex = match &acc.patch {
            Some(p) => match &p.code {
                Some(code) => Some(code.commitment_hex.clone()),
                None => None,
            },
            None => None,
        };
        r.push(UpdatedAccountCode { account_id: acc.account_id.clone(), code_commitment_hex });
    }
    r
}

/// The backfill stores what a fresh index would: for any block, the commitment that the
/// backfill finds for an account is the `code_commitment` of the `account` row that the
/// account handler writes for the account's first update in that block (and the backfill
/// finds none where the account is not updated in the block).
pub proof fn lemma_backfill_matches_fresh_index(
    header: BlockHeaderData,
    accounts: Seq<UpdatedAccountData>,
    rows: Seq<DatabaseAccount>,
    codes: Seq<UpdatedAccountCode>,
    account_id: Seq<u8>,
)
    requires
        rows.len() == accounts.len(),
        forall|i: int| 0 <= i < accounts.len() ==> is_account_row(#[trigger] rows[i], header, accounts[i], i),
        codes.len() == accounts.len(),
        forall|i: int|
            0 <= i < codes.len() ==> ((#[trigger] codes[i]).account_id@, opt_chars(codes[i].code_commitment_hex))
                == account_code_view(accounts[i]),
    ensures
        match first_position(codes, account_id) {
            Some(i) => 0 <= i < rows.len() && rows[i].account_id@ == account_id
                && block_code_commitment(codes, account_id) == opt_chars(rows[i].code_commitment),
            None => block_code_commitment(codes, account_id) is None && forall|j: int|
                0 <= j < rows.len() ==> (#[trigger] rows[j]).account_id@ != account_id,
        },
{
    lemma_first_position(codes, account_id);
    match first_position(codes, account_id) {
        Some(i) => {
            assert(is_account_row(rows[i], header, accounts[i], i));
            assert(codes[i].account_id@ == accounts[i].account_id@);
        },
        None => {
            assert forall|j: int| 0 <= j < rows.len() implies (#[trigger] rows[j]).account_id@
                != account_id by {
                assert(is_account_row(rows[j], header, accounts[j], j));
                assert(codes[j].account_id@ == accounts[j].account_id@);
            }
        },
    }
}

/// The accounts of `accounts` deployed in `block`, in order.
pub open spec fn deployed_in(accounts: Seq<AccountMissingCodeCommitment>, block: u32) -> Seq<
    AccountMissingCodeCommitment,
>
    decreases accounts.len(),
{
    if accounts.len() == 0 {
        Seq::empty()
    } else if accounts.last().deployed_at_block_number == block {
        deployed_in(accounts.drop_last(), block).push(accounts.last())
    } else {
        deployed_in(accounts.drop_last(), block)
    }
}

/// The accounts grouped by deployment block: a block is a key exactly when an account was
/// deployed in it, and it maps to the accounts deployed in it, in the order given.
pub open spec fn is_grouping_of(
    groups: Map<u32, Vec<AccountMissingCodeCommitment>>,
    accounts: Seq<AccountMissingCodeCommitment>,
) -> bool {
    &&& forall|b: u32| #[trigger] groups.contains_key(b) <==> deployed_in(accounts, b).len() > 0
    &&& forall|b: u32| #[trigger] groups.contains_key(b) ==> groups[b]@ == deployed_in(accounts, b)
}

/// The list of accounts deployed in `block` is empty exactly when no account names that block.
pub proof fn lemma_deployed_in_nonempty(accounts: Seq<AccountMissingCodeCommitment>, block: u32)
    ensures
        deployed_in(accounts, block).len() == 0 <==> forall|i: int|
            0 <= i < accounts.len() ==> (#[trigger] accounts[i]).deployed_at_block_number != block,
    decreases accounts.len(),
{
    if accounts.len() > 0 {
        lemma_deployed_in_nonempty(accounts.drop_last(), block);
        let init = accounts.drop_last();
        assert forall|j: int| 0 <= j < init.len() implies init[j] == accounts[j] by {}
        if accounts.last().deployed_at_block_number == block {
            assert(accounts[accounts.len() - 1].deployed_at_block_number == block);
        }
    }
}

/// Block numbers obey the laws of a total order, as the map's keys must.
proof fn lemma_block_numbers_ordered()
    ensures
        vstd::laws_cmp::obeys_cmp::<u32>(),
{
    broadcast use vstd::laws_cmp::group_laws_cmp;

}

/// Groups the accounts by deployment block, so that each block is fetched once; the map
/// is walked in ascending block order, the accounts of a block in the order given.
pub fn group_by_deployment_block(accounts: Vec<AccountMissingCodeCommitment>) -> (groups: BTreeMap<
    u32,
    Vec<AccountMissingCodeCommitment>,
>)
    ensures
        is_grouping_of(groups@, accounts@),
{
    broadcast use vstd::std_specs::btree::group_btree_axioms;

    proof {
        lemma_block_numbers_ordered();
    }

    let ghost all = accounts@;
    let mut groups: BTreeMap<u32, Vec<AccountMissingCodeCommitment>> = BTreeMap::new();
    let mut rest = accounts;
    let mut i: usize = 0;
    let n = rest.len();
    while i < n
        invariant
            n == all.len(),
            i <= n,
            rest@ == all.skip(i as int),
            is_grouping_of(groups@, all.take(i as int)),
        decreases n - i,
    {
        let ghost prev = all.take(i as int);
        let ghost next = all.take(i + 1);
        assert(next.drop_last() == prev);
        assert(rest@[0] == all[i as int]);
        let account = rest.remove(0);
        assert(rest@ == all.skip(i + 1));
        assert(next.last() == account);
        let block = account.deployed_at_block_number;
        let ghost old_groups = groups@;
        let mut members = match groups.remove(&block) {
            Some(v) => v,
            None => Vec::new(),
        };
        assert(members@ == deployed_in(prev, block));
        members.push(account);
        groups.insert(block, members);
        proof {
            assert(groups@ == old_groups.insert(block, members));
            assert forall|b: u32| #[trigger] groups@.contains_key(b) <==> deployed_in(next, b).len()
                > 0 by {
                if b != block {
                    assert(deployed_in(next, b) == deployed_in(prev, b));
                    assert(old_groups.contains_key(b) <==> deployed_in(prev, b).len() > 0);
                }
            }
            assert forall|b: u32| #[trigger] groups@.contains_key(b) implies groups@[b]@
                == deployed_in(next, b) by {
                if b != block {
                    assert(deployed_in(next, b) == deployed_in(prev, b));
                    assert(old_groups.contains_key(b));
                }
            }
        }
        i = i + 1;
    }
    assert(all.take(n as int) == all);
    groups
}

/// The backfill's running counts: accounts whose row was given a code commitment, and
/// accounts whose deployment block carries no code for them.
#[derive(Debug, Clone, Copy, PartialEq, Eq, Structural)]
pub struct BackfillProgress {
    pub updated: usize,
    pub skipped: usize,
}

impl BackfillProgress {
    /// No account handled yet.
    pub fn new() -> (r: Self)
        ensures
            r.updated == 0,
            r.skipped == 0,
    {
        BackfillProgress { updated: 0, skipped: 0 }
    }

    /// Counts one account: `found` tells whether its block carries its code commitment,
    /// `row_changed` whether storing it changed the row (a row that already has one is left
    /// as it is, and counted nowhere).
    pub fn record(&mut self, found: bool, row_changed: bool)
        requires
            old(self).updated + old(self).skipped < usize::MAX,
        ensures
            final(self).updated == old(self).updated + if found && row_changed {
                1int
            } else {
                0int
            },
            final(self).skipped == old(self).skipped + if found {
                0int
            } else {
                1int
            },
    {
        if found {
            if row_changed {
                self.updated = self.updated + 1;
            }
        } else {
            self.skipped = self.skipped + 1;
        }
    }
}

/// Whether to report the backfill's progress after a block: when the number of accounts
/// handled so far (updated and skipped) is a multiple of 100.
pub fn should_report_progress(updated: usize, skipped: usize) -> (r: bool)
    requires
        updated + skipped <= usize::MAX,
    ensures
        r == ((updated + skipped) % 100 == 0),
{
    (updated + skipped) % 100 == 0
}

} // verus!
