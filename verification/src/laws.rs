//! Laws of the registry, proved once and for all inputs: what batch updates
//! do to membership, how ownership behaves across construction and transfer,
//! and the independence of the two membership sets.

use vstd::prelude::*;
use crate::account::valid_account_id;
use crate::members::add_all;
use crate::members::added_ids;
use crate::members::remove_all;
use crate::members::removed_ids;
use crate::registry::WhitelistIdoContract;

verus! {

/// After construction with `owner_id`, exactly `owner_id` is the owner: the
/// ownership query holds of it and of no other identifier.
pub proof fn lemma_new_owner(c: WhitelistIdoContract, owner_id: Seq<char>, other: Seq<char>)
    requires
        c.owner_account_id@ == owner_id,
        other != owner_id,
    ensures
        c.spec_is_owner(owner_id),
        !c.spec_is_owner(other),
{
}

/// After a successful ownership transfer from `a` to a distinct `b`, the new
/// owner `b` holds ownership and the old owner `a` has lost it.
pub proof fn lemma_transfer_owner(pre: WhitelistIdoContract, post: WhitelistIdoContract, a: Seq<char>, b: Seq<char>)
    requires
        pre.owner_account_id@ == a,
        post.owner_account_id@ == b,
        a != b,
    ensures
        post.spec_is_owner(b),
        !post.spec_is_owner(a),
{
}

/// A sequence contains an element exactly when the sequence without its last
/// element does, or the last element is it.
proof fn lemma_contains_split(ids: Seq<Seq<char>>, x: Seq<char>)
    requires
        ids.len() > 0,
    ensures
        ids.contains(x) <==> (ids.drop_last().contains(x) || ids.last() == x),
{
    if ids.contains(x) {
        let j = choose|j: int| 0 <= j < ids.len() && ids[j] == x;
        if j < ids.len() - 1 {
            assert(ids.drop_last()[j] == x);
        }
    }
    if ids.drop_last().contains(x) {
        let j = choose|j: int| 0 <= j < ids.drop_last().len() && ids.drop_last()[j] == x;
        assert(ids[j] == x);
    }
}

/// What a batch add leaves behind: an identifier is a member afterwards
/// exactly when it was a member before, or it is a valid identifier that the
/// batch names.
pub proof fn lemma_add_all_membership(s: Set<Seq<char>>, ids: Seq<Seq<char>>, x: Seq<char>)
    ensures
        add_all(s, ids).contains(x) <==> (s.contains(x) || (valid_account_id(x) && ids.contains(x))),
    decreases ids.len(),
{
    if ids.len() == 0 {
        assert(!ids.contains(x));
    } else {
        lemma_add_all_membership(s, ids.drop_last(), x);
        lemma_contains_split(ids, x);
    }
}

/// What a batch remove leaves behind: an identifier is a member afterwards
/// exactly when it was a member before and it is not a valid identifier that
/// the batch names.
pub proof fn lemma_remove_all_membership(s: Set<Seq<char>>, ids: Seq<Seq<char>>, x: Seq<char>)
    ensures
        remove_all(s, ids).contains(x) <==> (s.contains(x) && !(valid_account_id(x) && ids.contains(x))),
    decreases ids.len(),
{
    if ids.len() == 0 {
        assert(!ids.contains(x));
    } else {
        lemma_remove_all_membership(s, ids.drop_last(), x);
        lemma_contains_split(ids, x);
    }
}

/// What a batch add reports is sound: every reported identifier is newly a
/// member — present afterwards, absent before — and no identifier is
/// reported twice, however often the batch repeats it.
pub proof fn lemma_added_ids_distinct(s: Set<Seq<char>>, ids: Seq<Seq<char>>)
    ensures
        added_ids(s, ids).no_duplicates(),
        forall|y: Seq<char>| #[trigger] added_ids(s, ids).contains(y) ==> add_all(s, ids).contains(y) && !s.contains(y),
        forall|y: Seq<char>| #[trigger] s.contains(y) ==> add_all(s, ids).contains(y),
    decreases ids.len(),
{
    if ids.len() > 0 {
        lemma_added_ids_distinct(s, ids.drop_last());
        let x = ids.last();
        let prev = added_ids(s, ids.drop_last());
        let prev_set = add_all(s, ids.drop_last());
        assert forall|y: Seq<char>| #[trigger] s.contains(y) implies add_all(s, ids).contains(y) by {
            assert(prev_set.contains(y));
        }
        if valid_account_id(x) && !prev_set.contains(x) {
            let cur = prev.push(x);
            assert(added_ids(s, ids) == cur);
            assert(add_all(s, ids) == prev_set.insert(x));
            assert forall|j: int| 0 <= j < prev.len() implies prev[j] != x by {
                assert(prev.contains(prev[j]));
            }
            assert(cur.no_duplicates());
            assert forall|y: Seq<char>| #[trigger] cur.contains(y) implies add_all(s, ids).contains(y) && !s.contains(y) by {
                let j = choose|j: int| 0 <= j < cur.len() && cur[j] == y;
                if j < prev.len() {
                    assert(prev.contains(y));
                } else {
                    assert(y == x);
                    if s.contains(y) {
                        assert(prev_set.contains(y));
                    }
                }
            }
        }
    }
}

/// What a batch remove reports is sound: every reported identifier has been
/// removed — absent afterwards, present before — and no identifier is
/// reported twice, however often the batch repeats it.
pub proof fn lemma_removed_ids_distinct(s: Set<Seq<char>>, ids: Seq<Seq<char>>)
    ensures
        removed_ids(s, ids).no_duplicates(),
        forall|y: Seq<char>| #[trigger] removed_ids(s, ids).contains(y) ==> !remove_all(s, ids).contains(y) && s.contains(y),
        forall|y: Seq<char>| #[trigger] remove_all(s, ids).contains(y) ==> s.contains(y),
    decreases ids.len(),
{
    if ids.len() > 0 {
        lemma_removed_ids_distinct(s, ids.drop_last());
        let x = ids.last();
        let prev = removed_ids(s, ids.drop_last());
        let prev_set = remove_all(s, ids.drop_last());
        assert forall|y: Seq<char>| #[trigger] remove_all(s, ids).contains(y) implies s.contains(y) by {
            assert(prev_set.contains(y));
        }
        if valid_account_id(x) && prev_set.contains(x) {
            let cur = prev.push(x);
            assert(removed_ids(s, ids) == cur);
            assert(remove_all(s, ids) == prev_set.remove(x));
            assert forall|j: int| 0 <= j < prev.len() implies prev[j] != x by {
                assert(prev.contains(prev[j]));
            }
            assert(cur.no_duplicates());
            assert forall|y: Seq<char>| #[trigger] cur.contains(y) implies !remove_all(s, ids).contains(y) && s.contains(y) by {
                let j = choose|j: int| 0 <= j < cur.len() && cur[j] == y;
                if j < prev.len() {
                    assert(prev.contains(y));
                } else {
                    assert(y == x);
                    assert(s.contains(x));
                }
            }
        }
    }
}

/// Adding an identifier is idempotent: a second add of the same identifier
/// leaves the membership of the first and reports nothing added.
pub proof fn lemma_add_twice_idempotent(s: Set<Seq<char>>, x: Seq<char>)
    ensures
        add_all(add_all(s, seq![x]), seq![x]) == add_all(s, seq![x]),
        added_ids(add_all(s, seq![x]), seq![x]) == Seq::<Seq<char>>::empty(),
{
    let ids = seq![x];
    assert(ids.drop_last() =~= Seq::<Seq<char>>::empty());
    assert(ids.last() == x);
    assert(add_all(s, ids.drop_last()) == s);
    assert(added_ids(s, ids.drop_last()) == Seq::<Seq<char>>::empty());
    let s1 = add_all(s, ids);
    assert(add_all(s1, ids.drop_last()) == s1);
    assert(added_ids(s1, ids.drop_last()) == Seq::<Seq<char>>::empty());
    if valid_account_id(x) {
        assert(s1.contains(x));
    }
}

/// Removing an absent identifier is a no-op: the membership is unchanged and
/// nothing is reported removed.
pub proof fn lemma_remove_absent(s: Set<Seq<char>>, x: Seq<char>)
    requires
        !s.contains(x),
    ensures
        remove_all(s, seq![x]) == s,
        removed_ids(s, seq![x]) == Seq::<Seq<char>>::empty(),
{
    let ids = seq![x];
    assert(ids.drop_last() =~= Seq::<Seq<char>>::empty());
    assert(ids.last() == x);
    assert(remove_all(s, ids.drop_last()) == s);
    assert(removed_ids(s, ids.drop_last()) == Seq::<Seq<char>>::empty());
}

/// The two membership sets are independent: a batch add to the whitelist
/// leaves registration-whitelist membership of every identifier unchanged.
pub proof fn lemma_whitelist_add_independent(pre: WhitelistIdoContract, post: WhitelistIdoContract, ids: Seq<Seq<char>>, x: Seq<char>)
    requires
        post.registration_whitelist == pre.registration_whitelist,
        post.whitelist_set() == add_all(pre.whitelist_set(), ids),
    ensures
        post.registration_whitelist_set().contains(x) == pre.registration_whitelist_set().contains(x),
{
}

/// The two membership sets are independent: a batch add to the registration
/// whitelist leaves whitelist membership of every identifier unchanged.
pub proof fn lemma_registration_add_independent(pre: WhitelistIdoContract, post: WhitelistIdoContract, ids: Seq<Seq<char>>, x: Seq<char>)
    requires
        post.whitelist == pre.whitelist,
        post.registration_whitelist_set() == add_all(pre.registration_whitelist_set(), ids),
    ensures
        post.whitelist_set().contains(x) == pre.whitelist_set().contains(x),
{
}

} // verus!
