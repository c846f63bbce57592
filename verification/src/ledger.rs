//! An insertion-ordered map from account ids to values, stored as a vector of
//! entries with pairwise-distinct keys.
//!
//! This is the in-memory stand-in for the hosts' storage-backed account maps.
//! Lookups are specified by [`assoc_get`], a first-match search over the entry
//! sequence; the well-formedness predicate [`AccountLedger::wf`] (no two
//! entries share a key) makes the first match the only match.  Insertion
//! order is part of the specification because some contract calls pay out to
//! every entry in order.

use vstd::prelude::*;

use crate::account::AccountId;

verus! {

/// The value stored under key `k` in the entry sequence `s`: the first entry
/// whose key reads `k`, if any.
pub open spec fn assoc_get<V>(s: Seq<(AccountId, V)>, k: Seq<char>) -> Option<V>
    decreases s.len(),
{
    if s.len() == 0 {
        None
    } else if s[0].0@ == k {
        Some(s[0].1)
    } else {
        assoc_get(s.subrange(1, s.len() as int), k)
    }
}

/// If `i` is the first position whose key reads `k`, the lookup returns that
/// entry's value.
pub proof fn lemma_assoc_get_found<V>(s: Seq<(AccountId, V)>, k: Seq<char>, i: int)
    requires
        0 <= i < s.len(),
        s[i].0@ == k,
        forall|j: int| 0 <= j < i ==> (#[trigger] s[j]).0@ != k,
    ensures
        assoc_get(s, k) == Some(s[i].1),
    decreases s.len(),
{
    if i == 0 {
    } else {
        let t = s.subrange(1, s.len() as int);
        assert(s[0].0@ != k);
        assert(t[i - 1] == s[i]);
        assert forall|j: int| 0 <= j < i - 1 implies (#[trigger] t[j]).0@ != k by {
            assert(t[j] == s[j + 1]);
        }
        lemma_assoc_get_found(t, k, i - 1);
    }
}

/// If no entry's key reads `k`, the lookup returns nothing.
pub proof fn lemma_assoc_get_absent<V>(s: Seq<(AccountId, V)>, k: Seq<char>)
    requires
        forall|j: int| 0 <= j < s.len() ==> (#[trigger] s[j]).0@ != k,
    ensures
        assoc_get(s, k) == None::<V>,
    decreases s.len(),
{
    if s.len() > 0 {
        let t = s.subrange(1, s.len() as int);
        assert forall|j: int| 0 <= j < t.len() implies (#[trigger] t[j]).0@ != k by {
            assert(t[j] == s[j + 1]);
        }
        lemma_assoc_get_absent(t, k);
    }
}

/// Two entry sequences with the same keys, equal everywhere except possibly in
/// the value at position `i`, agree on lookups of every key other than the one
/// at `i`.
pub proof fn lemma_assoc_get_frame<V>(
    s1: Seq<(AccountId, V)>,
    s2: Seq<(AccountId, V)>,
    i: int,
    k: Seq<char>,
)
    requires
        s1.len() == s2.len(),
        forall|j: int| 0 <= j < s1.len() ==> (#[trigger] s1[j]).0@ == (#[trigger] s2[j]).0@,
        forall|j: int| 0 <= j < s1.len() && j != i ==> (#[trigger] s1[j]).1 == (#[trigger] s2[j]).1,
        0 <= i < s1.len() ==> k != s1[i].0@,
    ensures
        assoc_get(s1, k) == assoc_get(s2, k),
    decreases s1.len(),
{
    if s1.len() > 0 {
        if s1[0].0@ == k {
            assert(s1[0].1 == s2[0].1);
        } else {
            let t1 = s1.subrange(1, s1.len() as int);
            let t2 = s2.subrange(1, s2.len() as int);
            assert forall|j: int| 0 <= j < t1.len() implies (#[trigger] t1[j]).0@ == (
            #[trigger] t2[j]).0@ by {
                assert(t1[j] == s1[j + 1]);
                assert(t2[j] == s2[j + 1]);
            }
            assert forall|j: int| 0 <= j < t1.len() && j != i - 1 implies (#[trigger] t1[j]).1 == (
            #[trigger] t2[j]).1 by {
                assert(t1[j] == s1[j + 1]);
                assert(t2[j] == s2[j + 1]);
            }
            if 0 <= i < s1.len() {
                assert(t1[i - 1] == s1[i] || i == 0);
            }
            lemma_assoc_get_frame(t1, t2, i - 1, k);
        }
    }
}

/// Appending an entry changes only the lookup of its own key, and that only
/// when the key was absent.
pub proof fn lemma_assoc_get_push<V>(s: Seq<(AccountId, V)>, e: (AccountId, V), k: Seq<char>)
    ensures
        assoc_get(s.push(e), k) == if assoc_get(s, k) is Some {
            assoc_get(s, k)
        } else if e.0@ == k {
            Some(e.1)
        } else {
            None::<V>
        },
    decreases s.len(),
{
    if s.len() == 0 {
        assert(s.push(e)[0] == e);
        if e.0@ != k {
            let t = s.push(e).subrange(1, 1);
            assert(assoc_get(t, k) == None::<V>);
        }
    } else {
        assert(s.push(e)[0] == s[0]);
        if s[0].0@ != k {
            let t = s.subrange(1, s.len() as int);
            assert(s.push(e).subrange(1, s.push(e).len() as int) =~= t.push(e));
            lemma_assoc_get_push(t, e, k);
        }
    }
}

/// Removing the only entry whose key reads `k` makes `k` absent and leaves
/// every other lookup unchanged.
pub proof fn lemma_assoc_get_remove<V>(s: Seq<(AccountId, V)>, i: int, k: Seq<char>)
    requires
        0 <= i < s.len(),
        forall|j: int| 0 <= j < s.len() && j != i ==> (#[trigger] s[j]).0@ != s[i].0@,
    ensures
        assoc_get(s.remove(i), k) == if k == s[i].0@ {
            None::<V>
        } else {
            assoc_get(s, k)
        },
    decreases s.len(),
{
    let r = s.remove(i);
    let t = s.subrange(1, s.len() as int);
    if i == 0 {
        assert(r =~= t);
        if k == s[0].0@ {
            assert forall|j: int| 0 <= j < t.len() implies (#[trigger] t[j]).0@ != k by {
                assert(t[j] == s[j + 1]);
            }
            lemma_assoc_get_absent(t, k);
        }
    } else {
        assert(r[0] == s[0]);
        if s[0].0@ == k {
            assert(s[i].0@ != k);
        } else {
            assert(r.subrange(1, r.len() as int) =~= t.remove(i - 1));
            assert(t[i - 1] == s[i]);
            assert forall|j: int| 0 <= j < t.len() && j != i - 1 implies (#[trigger] t[j]).0@ != t[
                i - 1].0@ by {
                assert(t[j] == s[j + 1]);
            }
            lemma_assoc_get_remove(t, i - 1, k);
        }
    }
}

/// A map from account ids to values of type `V`, kept as a vector of entries
/// in insertion order.
pub struct AccountLedger<V> {
    entries: Vec<(AccountId, V)>,
}

impl<V> AccountLedger<V> {
    /// The number of entries.
    pub closed spec fn len_spec(self) -> nat {
        self.entries@.len()
    }

    /// The keys, in insertion order.
    pub closed spec fn key_seq(self) -> Seq<Seq<char>> {
        self.entries@.map_values(|e: (AccountId, V)| e.0@)
    }

    /// The value stored under `k`, if any.
    pub closed spec fn spec_get(self, k: Seq<char>) -> Option<V> {
        assoc_get(self.entries@, k)
    }

    /// True when `k` has an entry.
    pub open spec fn spec_contains(self, k: Seq<char>) -> bool {
        self.spec_get(k) is Some
    }

    /// No two entries share a key.
    pub closed spec fn wf(self) -> bool {
        forall|i: int, j: int|
            0 <= i < j < self.entries@.len() ==> (#[trigger] self.entries@[i]).0@ != (
            #[trigger] self.entries@[j]).0@
    }

    /// The entry at position `i` of a well-formed ledger holds the value
    /// stored under its own key.
    proof fn lemma_key_at_get(self, i: int)
        requires
            self.wf(),
            0 <= i < self.len_spec(),
        ensures
            self.spec_contains(self.key_seq()[i]),
            self.spec_get(self.key_seq()[i]) == Some(self.entries@[i].1),
    {
        let k = self.key_seq()[i];
        assert forall|j: int| 0 <= j < i implies (#[trigger] self.entries@[j]).0@ != k by {}
        lemma_assoc_get_found(self.entries@, k, i);
    }

}

impl<V: Copy> AccountLedger<V> {
    /// An empty ledger.
    pub fn new() -> (r: Self)
        ensures
            r.wf(),
            r.len_spec() == 0,
            r.key_seq() == Seq::<Seq<char>>::empty(),
            forall|k: Seq<char>| r.spec_get(k) == None::<V>,
    {
        let r = AccountLedger { entries: Vec::new() };
        proof {
            assert forall|k: Seq<char>| r.spec_get(k) == None::<V> by {
                lemma_assoc_get_absent(r.entries@, k);
            }
            assert(r.key_seq() =~= Seq::<Seq<char>>::empty());
        }
        r
    }

    /// The position of the entry for `key`, if there is one.
    fn find_index(&self, key: &AccountId) -> (r: Option<usize>)
        ensures
            match r {
                Some(i) => i < self.entries@.len() && self.entries@[i as int].0@ == key@ && forall|
                    j: int,
                |
                    0 <= j < i ==> (#[trigger] self.entries@[j]).0@ != key@,
                None => forall|j: int|
                    0 <= j < self.entries@.len() ==> (#[trigger] self.entries@[j]).0@ != key@,
            },
    {
        let n = self.entries.len();
        let mut i: usize = 0;
        while i < n
            invariant
                n == self.entries@.len(),
                0 <= i <= n,
                forall|j: int| 0 <= j < i ==> (#[trigger] self.entries@[j]).0@ != key@,
            decreases n - i,
        {
            if self.entries[i].0.eq_id(key) {
                return Some(i);
            }
            i = i + 1;
        }
        None
    }

    /// The number of entries.
    pub fn len(&self) -> (r: usize)
        ensures
            r == self.len_spec(),
            r == self.key_seq().len(),
    {
        self.entries.len()
    }

    /// Looks the key up.
    pub fn get(&self, key: &AccountId) -> (r: Option<V>)
        ensures
            r == self.spec_get(key@),
    {
        match self.find_index(key) {
            Some(i) => {
                proof {
                    lemma_assoc_get_found(self.entries@, key@, i as int);
                }
                Some(self.entries[i].1)
            },
            None => {
                proof {
                    lemma_assoc_get_absent(self.entries@, key@);
                }
                None
            },
        }
    }

    /// True when the key has an entry.
    pub fn contains_key(&self, key: &AccountId) -> (r: bool)
        ensures
            r == self.spec_contains(key@),
    {
        self.get(key).is_some()
    }

    /// Stores `value` under `key`: updates the entry in place when the key is
    /// present, appends a new entry otherwise.
    pub fn insert(&mut self, key: &AccountId, value: V)
        requires
            old(self).wf(),
        ensures
            final(self).wf(),
            final(self).spec_get(key@) == Some(value),
            forall|k: Seq<char>|
                k != key@ ==> #[trigger] final(self).spec_get(k) == old(self).spec_get(k),
            old(self).spec_contains(key@) ==> final(self).key_seq() == old(self).key_seq(),
            !old(self).spec_contains(key@) ==> final(self).key_seq() == old(self).key_seq().push(
                key@,
            ),
            final(self).len_spec() == if old(self).spec_contains(key@) {
                old(self).len_spec() as int
            } else {
                old(self).len_spec() + 1 as int
            },
    {
        let ghost s_old = self.entries@;
        match self.find_index(key) {
            Some(i) => {
                proof {
                    lemma_assoc_get_found(s_old, key@, i as int);
                }
                self.entries[i] = (key.clone(), value);
                proof {
                    let s_new = self.entries@;
                    lemma_assoc_get_found(s_new, key@, i as int);
                    assert forall|k: Seq<char>|
                        k != key@ implies #[trigger] assoc_get(s_new, k) == assoc_get(
                        s_old,
                        k,
                    ) by {
                        lemma_assoc_get_frame(s_new, s_old, i as int, k);
                    }
                    assert(self.key_seq() =~= old(self).key_seq());
                }
            },
            None => {
                proof {
                    lemma_assoc_get_absent(s_old, key@);
                }
                let key2 = key.clone();
                let ghost e = (key2, value);
                self.entries.push((key2, value));
                proof {
                    let s_new = self.entries@;
                    assert(s_new == s_old.push(e));
                    assert forall|k: Seq<char>|
                        k != key@ implies #[trigger] assoc_get(s_new, k) == assoc_get(
                        s_old,
                        k,
                    ) by {
                        lemma_assoc_get_push(s_old, e, k);
                    }
                    lemma_assoc_get_push(s_old, e, key@);
                    assert(self.key_seq() =~= old(self).key_seq().push(key@));
                    assert forall|a: int, b: int|
                        0 <= a < b < s_new.len() implies (#[trigger] s_new[a]).0@ != (
                    #[trigger] s_new[b]).0@ by {
                        if b == s_new.len() - 1 {
                            assert(s_new[a] == s_old[a]);
                        }
                    }
                }
            },
        }
    }

    /// Removes the entry for `key`, returning the value it held.
    pub fn remove(&mut self, key: &AccountId) -> (r: Option<V>)
        requires
            old(self).wf(),
        ensures
            final(self).wf(),
            r == old(self).spec_get(key@),
            final(self).spec_get(key@) == None::<V>,
            forall|k: Seq<char>|
                k != key@ ==> #[trigger] final(self).spec_get(k) == old(self).spec_get(k),
            final(self).len_spec() == if old(self).spec_contains(key@) {
                old(self).len_spec() - 1
            } else {
                old(self).len_spec() as int
            },
    {
        let ghost s_old = self.entries@;
        match self.find_index(key) {
            Some(i) => {
                proof {
                    lemma_assoc_get_found(s_old, key@, i as int);
                }
                let (_, v) = self.entries.remove(i);
                proof {
                    let s_new = self.entries@;
                    assert forall|k: Seq<char>|
                        #[trigger] assoc_get(s_new, k) == if k == key@ {
                            None::<V>
                        } else {
                            assoc_get(s_old, k)
                        } by {
                        lemma_assoc_get_remove(s_old, i as int, k);
                    }
                    assert forall|a: int, b: int|
                        0 <= a < b < s_new.len() implies (#[trigger] s_new[a]).0@ != (
                    #[trigger] s_new[b]).0@ by {
                        assert(s_new[a] == if a < i { s_old[a] } else { s_old[a + 1] });
                        assert(s_new[b] == if b < i { s_old[b] } else { s_old[b + 1] });
                    }
                }
                Some(v)
            },
            None => {
                proof {
                    lemma_assoc_get_absent(s_old, key@);
                }
                None
            },
        }
    }

    /// The key of the entry at position `i`.
    pub fn key_at(&self, i: usize) -> (r: &AccountId)
        requires
            i < self.len_spec(),
        ensures
            r@ == self.key_seq()[i as int],
    {
        &self.entries[i].0
    }

    /// The value of the entry at position `i`: what is stored under the key at
    /// that position.
    pub fn value_at(&self, i: usize) -> (r: V)
        requires
            self.wf(),
            i < self.len_spec(),
        ensures
            self.spec_get(self.key_seq()[i as int]) == Some(r),
    {
        proof {
            self.lemma_key_at_get(i as int);
        }
        self.entries[i].1
    }
}

/// The balance a lookup stands for: what was found, or zero.
pub open spec fn spec_balance(o: Option<u128>) -> int {
    match o {
        Some(b) => b as int,
        None => 0,
    }
}

/// What the balances in the entry sequence `s` add up to.
pub open spec fn sum_values(s: Seq<(AccountId, u128)>) -> int
    decreases s.len(),
{
    if s.len() == 0 {
        0
    } else {
        s[0].1 + sum_values(s.subrange(1, s.len() as int))
    }
}

/// Overwriting the value at position `i` moves the sum by the difference.
proof fn lemma_sum_update(s: Seq<(AccountId, u128)>, i: int, e: (AccountId, u128))
    requires
        0 <= i < s.len(),
    ensures
        sum_values(s.update(i, e)) == sum_values(s) - s[i].1 + e.1,
    decreases s.len(),
{
    let s2 = s.update(i, e);
    let t = s.subrange(1, s.len() as int);
    if i == 0 {
        assert(s2[0] == e);
        assert(s2.subrange(1, s2.len() as int) =~= t);
    } else {
        assert(s2[0] == s[0]);
        assert(s2.subrange(1, s2.len() as int) =~= t.update(i - 1, e));
        assert(t[i - 1] == s[i]);
        lemma_sum_update(t, i - 1, e);
    }
}

/// Appending an entry adds its balance to the sum.
proof fn lemma_sum_push(s: Seq<(AccountId, u128)>, e: (AccountId, u128))
    ensures
        sum_values(s.push(e)) == sum_values(s) + e.1,
    decreases s.len(),
{
    let s2 = s.push(e);
    if s.len() == 0 {
        assert(s2[0] == e);
        assert(s2.subrange(1, 1) =~= Seq::<(AccountId, u128)>::empty());
        assert(sum_values(Seq::<(AccountId, u128)>::empty()) == 0);
    } else {
        assert(s2[0] == s[0]);
        assert(s2.subrange(1, s2.len() as int) =~= s.subrange(1, s.len() as int).push(e));
        lemma_sum_push(s.subrange(1, s.len() as int), e);
    }
}

/// Taking the entry at position `i` out takes its balance out of the sum.
proof fn lemma_sum_remove(s: Seq<(AccountId, u128)>, i: int)
    requires
        0 <= i < s.len(),
    ensures
        sum_values(s.remove(i)) == sum_values(s) - s[i].1,
    decreases s.len(),
{
    let s2 = s.remove(i);
    let t = s.subrange(1, s.len() as int);
    if i == 0 {
        assert(s2 =~= t);
    } else {
        assert(s2[0] == s[0]);
        assert(s2.subrange(1, s2.len() as int) =~= t.remove(i - 1));
        assert(t[i - 1] == s[i]);
        lemma_sum_remove(t, i - 1);
    }
}

/// Balance bookkeeping: for a ledger of balances, the operations also account
/// for the sum of everything stored, so that callers can relate it to their
/// own running totals.
impl AccountLedger<u128> {
    /// What the stored balances add up to.
    pub closed spec fn total(self) -> int {
        sum_values(self.entries@)
    }

    /// An empty ledger holds nothing.
    pub proof fn lemma_total_empty(self)
        requires
            self.len_spec() == 0,
        ensures
            self.total() == 0,
    {
    }

    /// Stores `value` under `key` like [`AccountLedger::insert`], and accounts
    /// for the sum: what was stored under the key leaves it, the new value
    /// enters it.
    pub fn insert_balance(&mut self, key: &AccountId, value: u128)
        requires
            old(self).wf(),
        ensures
            final(self).wf(),
            final(self).spec_get(key@) == Some(value),
            forall|k: Seq<char>|
                k != key@ ==> #[trigger] final(self).spec_get(k) == old(self).spec_get(k),
            old(self).spec_contains(key@) ==> final(self).key_seq() == old(self).key_seq(),
            !old(self).spec_contains(key@) ==> final(self).key_seq() == old(self).key_seq().push(
                key@,
            ),
            final(self).len_spec() == if old(self).spec_contains(key@) {
                old(self).len_spec() as int
            } else {
                old(self).len_spec() + 1 as int
            },
            final(self).total() == old(self).total() - spec_balance(old(self).spec_get(key@))
                + value,
    {
        let ghost s_old = self.entries@;
        match self.find_index(key) {
            Some(i) => {
                proof {
                    lemma_assoc_get_found(s_old, key@, i as int);
                }
                self.entries[i] = (key.clone(), value);
                proof {
                    let s_new = self.entries@;
                    lemma_assoc_get_found(s_new, key@, i as int);
                    assert forall|k: Seq<char>|
                        k != key@ implies #[trigger] assoc_get(s_new, k) == assoc_get(
                        s_old,
                        k,
                    ) by {
                        lemma_assoc_get_frame(s_new, s_old, i as int, k);
                    }
                    assert(self.key_seq() =~= old(self).key_seq());
                    lemma_sum_update(s_old, i as int, s_new[i as int]);
                }
            },
            None => {
                proof {
                    lemma_assoc_get_absent(s_old, key@);
                }
                let key2 = key.clone();
                let ghost e = (key2, value);
                self.entries.push((key2, value));
                proof {
                    let s_new = self.entries@;
                    assert(s_new == s_old.push(e));
                    assert forall|k: Seq<char>|
                        k != key@ implies #[trigger] assoc_get(s_new, k) == assoc_get(
                        s_old,
                        k,
                    ) by {
                        lemma_assoc_get_push(s_old, e, k);
                    }
                    lemma_assoc_get_push(s_old, e, key@);
                    assert(self.key_seq() =~= old(self).key_seq().push(key@));
                    assert forall|a: int, b: int|
                        0 <= a < b < s_new.len() implies (#[trigger] s_new[a]).0@ != (
                    #[trigger] s_new[b]).0@ by {
                        if b == s_new.len() - 1 {
                            assert(s_new[a] == s_old[a]);
                        }
                    }
                    lemma_sum_push(s_old, e);
                }
            },
        }
    }

    /// Removes the entry for `key` like [`AccountLedger::remove`], and
    /// accounts for the sum: what was stored under the key leaves it.
    pub fn remove_balance(&mut self, key: &AccountId) -> (r: Option<u128>)
        requires
            old(self).wf(),
        ensures
            final(self).wf(),
            r == old(self).spec_get(key@),
            final(self).spec_get(key@) == None::<u128>,
            forall|k: Seq<char>|
                k != key@ ==> #[trigger] final(self).spec_get(k) == old(self).spec_get(k),
            final(self).len_spec() == if old(self).spec_contains(key@) {
                old(self).len_spec() - 1
            } else {
                old(self).len_spec() as int
            },
            final(self).total() == old(self).total() - spec_balance(old(self).spec_get(key@)),
    {
        let ghost s_old = self.entries@;
        match self.find_index(key) {
            Some(i) => {
                proof {
                    lemma_assoc_get_found(s_old, key@, i as int);
                }
                let (_, v) = self.entries.remove(i);
                proof {
                    let s_new = self.entries@;
                    assert forall|k: Seq<char>|
                        #[trigger] assoc_get(s_new, k) == if k == key@ {
                            None::<u128>
                        } else {
                            assoc_get(s_old, k)
                        } by {
                        lemma_assoc_get_remove(s_old, i as int, k);
                    }
                    assert forall|a: int, b: int|
                        0 <= a < b < s_new.len() implies (#[trigger] s_new[a]).0@ != (
                    #[trigger] s_new[b]).0@ by {
                        assert(s_new[a] == if a < i { s_old[a] } else { s_old[a + 1] });
                        assert(s_new[b] == if b < i { s_old[b] } else { s_old[b + 1] });
                    }
                    lemma_sum_remove(s_old, i as int);
                }
                Some(v)
            },
            None => {
                proof {
                    lemma_assoc_get_absent(s_old, key@);
                }
                None
            },
        }
    }
}

} // verus!
