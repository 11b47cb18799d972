//! Membership vectors of account identifiers and the batch update semantics.
//!
//! A membership vector stands for an unordered set: it holds no duplicates,
//! and every entry is a valid account identifier. `add_all` / `remove_all`
//! give the set that a batch update leaves behind, and `added_ids` /
//! `removed_ids` the identifiers that actually changed it, in input order.

use vstd::prelude::*;
use crate::account::is_valid_account_id;
use crate::account::valid_account_id;

verus! {

/// The character sequences of the identifiers in `v`, in order.
pub open spec fn id_views(v: Seq<String>) -> Seq<Seq<char>> {
    v.map_values(|s: String| s@)
}

/// The set of identifiers held by `v`.
pub open spec fn id_set(v: Seq<String>) -> Set<Seq<char>> {
    id_views(v).to_set()
}

/// A well-formed membership vector: no duplicates, only valid identifiers.
pub open spec fn wf_members(v: Seq<String>) -> bool {
    &&& id_views(v).no_duplicates()
    &&& forall|i: int| 0 <= i < v.len() ==> valid_account_id(#[trigger] v[i]@)
}

/// The membership set after adding each identifier of `ids` in turn:
/// an identifier is inserted when it is valid and not yet present,
/// and skipped otherwise.
pub open spec fn add_all(s: Set<Seq<char>>, ids: Seq<Seq<char>>) -> Set<Seq<char>>
    decreases ids.len(),
{
    if ids.len() == 0 {
        s
    } else {
        let prev = add_all(s, ids.drop_last());
        if valid_account_id(ids.last()) && !prev.contains(ids.last()) {
            prev.insert(ids.last())
        } else {
            prev
        }
    }
}

/// The identifiers of `ids` that an add batch actually inserts, in input
/// order; a repeated or already-present identifier is reported at most once.
pub open spec fn added_ids(s: Set<Seq<char>>, ids: Seq<Seq<char>>) -> Seq<Seq<char>>
    decreases ids.len(),
{
    if ids.len() == 0 {
        Seq::empty()
    } else {
        let prev = added_ids(s, ids.drop_last());
        if valid_account_id(ids.last()) && !add_all(s, ids.drop_last()).contains(ids.last()) {
            prev.push(ids.last())
        } else {
            prev
        }
    }
}

/// The membership set after removing each identifier of `ids` in turn:
/// an identifier is removed when it is valid and present, and skipped
/// otherwise.
pub open spec fn remove_all(s: Set<Seq<char>>, ids: Seq<Seq<char>>) -> Set<Seq<char>>
    decreases ids.len(),
{
    if ids.len() == 0 {
        s
    } else {
        let prev = remove_all(s, ids.drop_last());
        if valid_account_id(ids.last()) && prev.contains(ids.last()) {
            prev.remove(ids.last())
        } else {
            prev
        }
    }
}

/// The identifiers of `ids` that a remove batch actually removes, in input
/// order; a repeated or absent identifier is reported at most once.
pub open spec fn removed_ids(s: Set<Seq<char>>, ids: Seq<Seq<char>>) -> Seq<Seq<char>>
    decreases ids.len(),
{
    if ids.len() == 0 {
        Seq::empty()
    } else {
        let prev = removed_ids(s, ids.drop_last());
        if valid_account_id(ids.last()) && remove_all(s, ids.drop_last()).contains(ids.last()) {
            prev.push(ids.last())
        } else {
            prev
        }
    }
}

/// Decides whether `account_id` occurs in `v`.
pub fn contains_account(v: &Vec<String>, account_id: &String) -> (r: bool)
    ensures
        r == id_set(v@).contains(account_id@),
{
    let mut i: usize = 0;
    while i < v.len()
        invariant
            i <= v@.len(),
            forall|j: int| 0 <= j < i ==> id_views(v@)[j] != account_id@,
        decreases v@.len() - i,
    {
        if v[i] == *account_id {
            assert(id_views(v@)[i as int] == account_id@);
            return true;
        }
        i = i + 1;
    }
    assert(!id_views(v@).contains(account_id@));
    false
}

/// Adds each identifier of `account_ids` to `members` in turn, skipping
/// invalid and already-present ones, and returns the identifiers actually
/// added, in input order.
pub fn batch_add(members: &mut Vec<String>, account_ids: &Vec<String>) -> (r: Vec<String>)
    requires
        wf_members(old(members)@),
    ensures
        wf_members(final(members)@),
        id_set(final(members)@) == add_all(id_set(old(members)@), id_views(account_ids@)),
        id_views(r@) == added_ids(id_set(old(members)@), id_views(account_ids@)),
{
    let ghost s0 = id_set(members@);
    let ghost vs = id_views(account_ids@);
    let mut r: Vec<String> = Vec::new();
    let mut i: usize = 0;
    while i < account_ids.len()
        invariant
            i <= account_ids@.len(),
            s0 == id_set(old(members)@),
            vs == id_views(account_ids@),
            vs.len() == account_ids@.len(),
            wf_members(members@),
            id_set(members@) == add_all(s0, vs.take(i as int)),
            id_views(r@) == added_ids(s0, vs.take(i as int)),
        decreases account_ids@.len() - i,
    {
        let account_id = &account_ids[i];
        proof {
            assert(vs.take(i + 1).drop_last() =~= vs.take(i as int));
            assert(vs.take(i + 1).last() == account_id@);
        }
        if is_valid_account_id(account_id) && !contains_account(members, account_id) {
            let ghost mseq = id_views(members@);
            members.push(account_id.clone());
            r.push(account_id.clone());
            proof {
                assert(id_views(members@) =~= mseq.push(account_id@));
                mseq.lemma_push_to_set_commute(account_id@);
                assert(id_set(members@) =~= add_all(s0, vs.take(i + 1)));
                assert(forall|j: int| 0 <= j < mseq.len() ==> mseq[j] != account_id@);
                assert(id_views(members@).no_duplicates());
                assert(id_views(r@) =~= added_ids(s0, vs.take(i + 1)));
            }
        } else {
            proof {
                assert(id_set(members@) =~= add_all(s0, vs.take(i + 1)));
                assert(id_views(r@) =~= added_ids(s0, vs.take(i + 1)));
            }
        }
        i = i + 1;
    }
    proof {
        assert(vs.take(account_ids@.len() as int) =~= vs);
    }
    r
}

/// Removes the one occurrence of `account_id` from `members`.
fn remove_account(members: &mut Vec<String>, account_id: &String)
    requires
        wf_members(old(members)@),
        id_set(old(members)@).contains(account_id@),
    ensures
        wf_members(final(members)@),
        id_set(final(members)@) == id_set(old(members)@).remove(account_id@),
{
    let ghost mseq = id_views(members@);
    let mut i: usize = 0;
    while i < members.len()
        invariant
            i <= members@.len(),
            members@ == old(members)@,
            wf_members(members@),
            mseq == id_views(members@),
            mseq.contains(account_id@),
            forall|j: int| 0 <= j < i ==> mseq[j] != account_id@,
        decreases members@.len() - i,
    {
        if members[i] == *account_id {
            let ghost k = i as int;
            let _ = members.remove(i);
            proof {
                assert(id_views(members@) =~= mseq.remove(k));
                lemma_remove_of_unique(mseq, k);
                assert(id_set(members@) =~= id_set(old(members)@).remove(account_id@));
                assert(forall|j: int| 0 <= j < members@.len() ==> #[trigger] members@[j]@ == mseq.remove(k)[j]);
            }
            return;
        }
        i = i + 1;
    }
    proof {
        let j = choose|j: int| 0 <= j < mseq.len() && mseq[j] == account_id@;
        assert(mseq[j] != account_id@);
    }
}

/// Removing the index of an element that occurs nowhere else removes exactly
/// that element from the sequence's set, and keeps the sequence
/// duplicate-free.
proof fn lemma_remove_of_unique(s: Seq<Seq<char>>, k: int)
    requires
        s.no_duplicates(),
        0 <= k < s.len(),
    ensures
        s.remove(k).no_duplicates(),
        s.remove(k).to_set() == s.to_set().remove(s[k]),
{
    s.remove_ensures(k);
    let t = s.remove(k);
    assert forall|x: Seq<char>| t.to_set().contains(x) implies s.to_set().remove(s[k]).contains(x) by {
        let j = choose|j: int| 0 <= j < t.len() && t[j] == x;
        if j < k {
            assert(s[j] == x);
        } else {
            assert(s[j + 1] == x);
        }
    }
    assert forall|x: Seq<char>| s.to_set().remove(s[k]).contains(x) implies t.to_set().contains(x) by {
        let j = choose|j: int| 0 <= j < s.len() && s[j] == x;
        if j < k {
            assert(t[j] == x);
        } else {
            assert(t[j - 1] == x);
        }
    }
    assert(t.to_set() =~= s.to_set().remove(s[k]));
}

/// Removes each identifier of `account_ids` from `members` in turn, skipping
/// invalid and absent ones, and returns the identifiers actually removed, in
/// input order.
pub fn batch_remove(members: &mut Vec<String>, account_ids: &Vec<String>) -> (r: Vec<String>)
    requires
        wf_members(old(members)@),
    ensures
        wf_members(final(members)@),
        id_set(final(members)@) == remove_all(id_set(old(members)@), id_views(account_ids@)),
        id_views(r@) == removed_ids(id_set(old(members)@), id_views(account_ids@)),
{
    let ghost s0 = id_set(members@);
    let ghost vs = id_views(account_ids@);
    let mut r: Vec<String> = Vec::new();
    let mut i: usize = 0;
    while i < account_ids.len()
        invariant
            i <= account_ids@.len(),
            s0 == id_set(old(members)@),
            vs == id_views(account_ids@),
            vs.len() == account_ids@.len(),
            wf_members(members@),
            id_set(members@) == remove_all(s0, vs.take(i as int)),
            id_views(r@) == removed_ids(s0, vs.take(i as int)),
        decreases account_ids@.len() - i,
    {
        let account_id = &account_ids[i];
        proof {
            assert(vs.take(i + 1).drop_last() =~= vs.take(i as int));
            assert(vs.take(i + 1).last() == account_id@);
        }
        if is_valid_account_id(account_id) && contains_account(members, account_id) {
            remove_account(members, account_id);
            r.push(account_id.clone());
            proof {
                assert(id_set(members@) =~= remove_all(s0, vs.take(i + 1)));
                assert(id_views(r@) =~= removed_ids(s0, vs.take(i + 1)));
            }
        } else {
            proof {
                assert(id_set(members@) =~= remove_all(s0, vs.take(i + 1)));
                assert(id_views(r@) =~= removed_ids(s0, vs.take(i + 1)));
            }
        }
        i = i + 1;
    }
    proof {
        assert(vs.take(account_ids@.len() as int) =~= vs);
    }
    r
}

/// Returns a copy of `v` with the same identifiers in the same order.
pub fn clone_members(v: &Vec<String>) -> (r: Vec<String>)
    ensures
        r@ == v@,
{
    let mut r: Vec<String> = Vec::new();
    let mut i: usize = 0;
    while i < v.len()
        invariant
            i <= v@.len(),
            r@ == v@.take(i as int),
        decreases v@.len() - i,
    {
        r.push(v[i].clone());
        proof {
            assert(r@ =~= v@.take(i + 1));
        }
        i = i + 1;
    }
    proof {
        assert(v@.take(v@.len() as int) =~= v@);
    }
    r
}

} // verus!
