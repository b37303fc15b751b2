//! Ordered lists of accounts: membership, and removal of every occurrence of
//! one account or of the accounts of another list.

use vstd::prelude::*;
use crate::origin::AccountId;

verus! {

broadcast use vstd::seq_lib::group_seq_properties;

/// Holds of every account but `id`.
pub open spec fn other_than(id: AccountId) -> spec_fn(AccountId) -> bool {
    |v: AccountId| v != id
}

/// Holds of every account that `gone` does not list.
pub open spec fn not_listed(gone: Seq<AccountId>) -> spec_fn(AccountId) -> bool {
    |v: AccountId| !gone.contains(v)
}

/// `s` without any occurrence of `id`, the rest in order.
pub open spec fn remove_all(s: Seq<AccountId>, id: AccountId) -> Seq<AccountId> {
    s.filter(other_than(id))
}

/// `s` without any account listed in `gone`, the rest in order.
pub open spec fn remove_listed(s: Seq<AccountId>, gone: Seq<AccountId>) -> Seq<AccountId> {
    s.filter(not_listed(gone))
}

/// A filtered list is a sublist: what it holds, the list held.
pub proof fn lemma_filter_subset(s: Seq<AccountId>, pred: spec_fn(AccountId) -> bool, x: AccountId)
    ensures
        s.filter(pred).contains(x) <==> (s.contains(x) && pred(x)),
{
    broadcast use vstd::seq_lib::group_filter_ensures;

    if s.filter(pred).contains(x) {
        s.lemma_filter_contains_rev(pred, x);
        let i = choose|i: int| 0 <= i < s.filter(pred).len() && s.filter(pred)[i] == x;
        s.lemma_filter_pred(pred, i);
    }
    if s.contains(x) && pred(x) {
        let i = choose|i: int| 0 <= i < s.len() && s[i] == x;
        s.lemma_filter_contains(pred, i);
    }
}

/// Filtering keeps a list free of duplicates.
pub proof fn lemma_filter_no_duplicates(s: Seq<AccountId>, pred: spec_fn(AccountId) -> bool)
    requires
        s.no_duplicates(),
    ensures
        s.filter(pred).no_duplicates(),
    decreases s.len(),
{
    if s.len() > 0 {
        let t = s.drop_last();
        assert(t.no_duplicates());
        lemma_filter_no_duplicates(t, pred);
        assert(t.push(s.last()) =~= s);
        t.lemma_filter_push(s.last(), pred);
        if pred(s.last()) {
            lemma_filter_subset(t, pred, s.last());
            assert(!t.contains(s.last()));
            let f = t.filter(pred);
            assert(!f.contains(s.last()));
            assert forall|i: int, j: int|
                0 <= i < f.push(s.last()).len() && 0 <= j < f.push(s.last()).len() && i != j
                implies f.push(s.last())[i] != f.push(s.last())[j] by {
                if i < f.len() && j == f.len() {
                    assert(f.contains(f[i]));
                } else if j < f.len() && i == f.len() {
                    assert(f.contains(f[j]));
                }
            }
        }
    }
}

/// Removing an account that a duplicate-free list holds shortens it by one;
/// removing one it does not hold leaves its length as it is.
pub proof fn lemma_remove_all_len(s: Seq<AccountId>, id: AccountId)
    requires
        s.no_duplicates(),
    ensures
        remove_all(s, id).len() == if s.contains(id) { s.len() - 1 } else { s.len() as int },
    decreases s.len(),
{
    let pred = other_than(id);
    if s.len() > 0 {
        let t = s.drop_last();
        assert(t.no_duplicates());
        lemma_remove_all_len(t, id);
        assert(t.push(s.last()) =~= s);
        t.lemma_filter_push(s.last(), pred);
        if s.last() == id {
            assert(!t.contains(id)) by {
                if t.contains(id) {
                    let i = choose|i: int| 0 <= i < t.len() && t[i] == id;
                    assert(s[i] == s[s.len() - 1]);
                }
            }
        } else {
            assert(s.contains(id) <==> t.contains(id)) by {
                if s.contains(id) {
                    let i = choose|i: int| 0 <= i < s.len() && s[i] == id;
                    assert(t[i] == id);
                }
            }
        }
    } else {
        reveal(Seq::filter);
    }
}

/// Removing an account that the list does not hold leaves it as it is.
pub proof fn lemma_remove_all_absent(s: Seq<AccountId>, id: AccountId)
    requires
        !s.contains(id),
    ensures
        remove_all(s, id) == s,
    decreases s.len(),
{
    let pred = other_than(id);
    if s.len() > 0 {
        let t = s.drop_last();
        assert(!t.contains(id)) by {
            if t.contains(id) {
                let i = choose|i: int| 0 <= i < t.len() && t[i] == id;
                assert(s[i] == id);
            }
        }
        lemma_remove_all_absent(t, id);
        assert(t.push(s.last()) =~= s);
        t.lemma_filter_push(s.last(), pred);
    } else {
        reveal(Seq::filter);
    }
}

/// Whether `v` holds `id`.
pub fn holds(v: &Vec<AccountId>, id: AccountId) -> (res: bool)
    ensures
        res == v@.contains(id),
{
    let mut i: usize = 0;
    while i < v.len()
        invariant
            i <= v@.len(),
            forall|j: int| 0 <= j < i ==> v@[j] != id,
        decreases v@.len() - i,
    {
        if v[i] == id {
            assert(v@[i as int] == id);
            return true;
        }
        i = i + 1;
    }
    false
}

/// A copy of `v` without any occurrence of `id`.
pub fn without(v: &Vec<AccountId>, id: AccountId) -> (res: Vec<AccountId>)
    ensures
        res@ == remove_all(v@, id),
{
    let mut res: Vec<AccountId> = Vec::new();
    let mut i: usize = 0;
    proof {
        reveal(Seq::filter);
        assert(v@.take(0) =~= Seq::<AccountId>::empty());
    }
    while i < v.len()
        invariant
            i <= v@.len(),
            res@ == v@.take(i as int).filter(other_than(id)),
        decreases v@.len() - i,
    {
        let x = v[i];
        proof {
            assert(v@.take(i as int).push(x) =~= v@.take(i + 1));
            v@.take(i as int).lemma_filter_push(x, other_than(id));
        }
        if x != id {
            res.push(x);
        }
        i = i + 1;
    }
    assert(v@.take(v@.len() as int) =~= v@);
    res
}

/// A copy of `v` without any account listed in `gone`.
pub fn without_listed(v: &Vec<AccountId>, gone: &Vec<AccountId>) -> (res: Vec<AccountId>)
    ensures
        res@ == remove_listed(v@, gone@),
{
    let mut res: Vec<AccountId> = Vec::new();
    let mut i: usize = 0;
    proof {
        reveal(Seq::filter);
        assert(v@.take(0) =~= Seq::<AccountId>::empty());
    }
    while i < v.len()
        invariant
            i <= v@.len(),
            res@ == v@.take(i as int).filter(not_listed(gone@)),
        decreases v@.len() - i,
    {
        let x = v[i];
        proof {
            assert(v@.take(i as int).push(x) =~= v@.take(i + 1));
            v@.take(i as int).lemma_filter_push(x, not_listed(gone@));
        }
        if !holds(gone, x) {
            res.push(x);
        }
        i = i + 1;
    }
    assert(v@.take(v@.len() as int) =~= v@);
    res
}

/// A copy of a list of accounts.
pub fn copy_accounts(v: &Vec<AccountId>) -> (res: Vec<AccountId>)
    ensures
        res@ == v@,
{
    let mut res: Vec<AccountId> = Vec::new();
    let mut i: usize = 0;
    while i < v.len()
        invariant
            i <= v@.len(),
            res@ == v@.take(i as int),
        decreases v@.len() - i,
    {
        res.push(v[i]);
        i = i + 1;
        proof {
            assert(res@ =~= v@.take(i as int));
        }
    }
    proof {
        assert(v@.take(v@.len() as int) =~= v@);
    }
    res
}

} // verus!
