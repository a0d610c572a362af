use vstd::prelude::*;

use crate::storage_types::Address;
use crate::store::{
    lookup, unique_keys, lemma_lookup_at_index, lemma_lookup_absent, lemma_lookup_update,
    lemma_lookup_push, lemma_update_same_key_unique, lemma_push_fresh_key_unique,
};

verus! {

/// Sum of the quantities stored in a balance association list.
pub open spec fn sum_amounts(s: Seq<(Address, i128)>) -> int
    decreases s.len(),
{
    if s.len() == 0 {
        0
    } else {
        s[0].1 + sum_amounts(s.drop_first())
    }
}

proof fn lemma_sum_update(s: Seq<(Address, i128)>, i: int, x: (Address, i128))
    requires
        0 <= i < s.len(),
    ensures
        sum_amounts(s.update(i, x)) == sum_amounts(s) - s[i].1 + x.1,
    decreases s.len(),
{
    let s2 = s.update(i, x);
    if i == 0 {
        assert(s2[0] == x);
        assert(s2.drop_first() =~= s.drop_first());
    } else {
        assert(s2[0] == s[0]);
        assert(s2.drop_first() =~= s.drop_first().update(i - 1, x));
        assert(s.drop_first()[i - 1] == s[i]);
        lemma_sum_update(s.drop_first(), i - 1, x);
    }
}

proof fn lemma_sum_push(s: Seq<(Address, i128)>, x: (Address, i128))
    ensures
        sum_amounts(s.push(x)) == sum_amounts(s) + x.1,
    decreases s.len(),
{
    let s2 = s.push(x);
    if s.len() == 0 {
        assert(s2[0] == x);
        assert(s2.drop_first() =~= Seq::<(Address, i128)>::empty());
        assert(sum_amounts(s2.drop_first()) == 0);
        assert(sum_amounts(s) == 0);
    } else {
        assert(s2[0] == s[0]);
        assert(s2.drop_first() =~= s.drop_first().push(x));
        lemma_sum_push(s.drop_first(), x);
    }
}

proof fn lemma_lookup_nonneg(s: Seq<(Address, i128)>, key: Address)
    requires
        forall|k: int| 0 <= k < s.len() ==> s[k].1 >= 0,
    ensures
        match lookup(s, key) {
            Some(v) => v >= 0,
            None => true,
        },
    decreases s.len(),
{
    if s.len() > 0 && s[0].0 != key {
        assert forall|k: int| 0 <= k < s.drop_first().len() implies s.drop_first()[k].1 >= 0 by {
            assert(s.drop_first()[k] == s[k + 1]);
        }
        lemma_lookup_nonneg(s.drop_first(), key);
    }
}

/// Per-account nonnegative quantity ledger. An account with no entry has
/// balance 0; an entry is created on first credit and never deleted, so a
/// zero balance persists as a stored zero.
pub struct BalanceStore {
    entries: Vec<(Address, i128)>,
}

impl BalanceStore {
    /// Entries carry unique keys and only nonnegative quantities.
    pub closed spec fn wf(self) -> bool {
        &&& unique_keys(self.entries@)
        &&& forall|k: int| 0 <= k < self.entries@.len() ==> self.entries@[k].1 >= 0
    }

    /// The balance of an account: its stored quantity, or 0 without an entry.
    pub closed spec fn spec_get(self, account: Address) -> int {
        match lookup(self.entries@, account) {
            Some(v) => v as int,
            None => 0,
        }
    }

    /// The total supply: the sum of all stored quantities.
    pub closed spec fn spec_total(self) -> int {
        sum_amounts(self.entries@)
    }

    /// A well-formed store never reports a negative balance.
    pub proof fn lemma_get_nonneg(self, account: Address)
        requires
            self.wf(),
        ensures
            self.spec_get(account) >= 0,
    {
        lemma_lookup_nonneg(self.entries@, account);
    }

    pub fn new() -> (r: BalanceStore)
        ensures
            r.wf(),
            forall|a: Address| r.spec_get(a) == 0,
            r.spec_total() == 0,
    {
        BalanceStore { entries: Vec::new() }
    }

    fn find_index(&self, account: Address) -> (r: Option<usize>)
        ensures
            match r {
                Some(i) => i < self.entries@.len() && self.entries@[i as int].0 == account
                    && forall|k: int| 0 <= k < i ==> self.entries@[k].0 != account,
                None => forall|k: int|
                    0 <= k < self.entries@.len() ==> self.entries@[k].0 != account,
            },
    {
        let n = self.entries.len();
        let mut i: usize = 0;
        while i < n
            invariant
                i <= n,
                n == self.entries@.len(),
                forall|k: int| 0 <= k < i ==> self.entries@[k].0 != account,
            decreases n - i,
        {
            if self.entries[i].0 == account {
                return Some(i);
            }
            i = i + 1;
        }
        None
    }

    /// The stored balance of `account`, defaulting to 0.
    pub fn read(&self, account: Address) -> (r: i128)
        ensures
            r as int == self.spec_get(account),
    {
        match self.find_index(account) {
            Some(i) => {
                proof {
                    lemma_lookup_at_index(self.entries@, account, i as int);
                }
                self.entries[i].1
            },
            None => {
                proof {
                    lemma_lookup_absent::<Address, i128>(self.entries@, account);
                }
                0
            },
        }
    }

    /// Credits `amount` to `account`. The caller has already checked that the
    /// addition stays within the numeric width.
    pub fn receive(&mut self, account: Address, amount: i128)
        requires
            old(self).wf(),
            0 <= amount,
            old(self).spec_get(account) + amount <= i128::MAX,
        ensures
            final(self).wf(),
            final(self).spec_get(account) == old(self).spec_get(account) + amount,
            forall|b: Address| b != account ==> final(self).spec_get(b) == old(self).spec_get(b),
            final(self).spec_total() == old(self).spec_total() + amount,
    {
        let ghost s0 = self.entries@;
        match self.find_index(account) {
            Some(i) => {
                proof {
                    lemma_lookup_at_index(s0, account, i as int);
                }
                let cur = self.entries[i].1;
                let x = (account, cur + amount);
                self.entries[i] = x;
                proof {
                    lemma_update_same_key_unique(s0, i as int, x);
                    lemma_sum_update(s0, i as int, x);
                    assert forall|b: Address| b != account
                        implies final(self).spec_get(b) == old(self).spec_get(b) by {
                        lemma_lookup_update(s0, i as int, x, b);
                    }
                    lemma_lookup_update(s0, i as int, x, account);
                }
            },
            None => {
                proof {
                    lemma_lookup_absent::<Address, i128>(s0, account);
                }
                let x = (account, amount);
                self.entries.push(x);
                proof {
                    lemma_push_fresh_key_unique(s0, x);
                    lemma_sum_push(s0, x);
                    assert forall|b: Address| b != account
                        implies final(self).spec_get(b) == old(self).spec_get(b) by {
                        lemma_lookup_push(s0, x, b);
                    }
                    lemma_lookup_push(s0, x, account);
                }
            },
        }
    }

    /// Debits `amount` from `account`. The caller has already checked that
    /// the balance covers it.
    pub fn spend(&mut self, account: Address, amount: i128)
        requires
            old(self).wf(),
            0 <= amount,
            amount <= old(self).spec_get(account),
        ensures
            final(self).wf(),
            final(self).spec_get(account) == old(self).spec_get(account) - amount,
            forall|b: Address| b != account ==> final(self).spec_get(b) == old(self).spec_get(b),
            final(self).spec_total() == old(self).spec_total() - amount,
    {
        let ghost s0 = self.entries@;
        match self.find_index(account) {
            Some(i) => {
                proof {
                    lemma_lookup_at_index(s0, account, i as int);
                }
                let cur = self.entries[i].1;
                let x = (account, cur - amount);
                self.entries[i] = x;
                proof {
                    lemma_update_same_key_unique(s0, i as int, x);
                    lemma_sum_update(s0, i as int, x);
                    assert forall|b: Address| b != account
                        implies final(self).spec_get(b) == old(self).spec_get(b) by {
                        lemma_lookup_update(s0, i as int, x, b);
                    }
                    lemma_lookup_update(s0, i as int, x, account);
                }
            },
            None => {
                // With no entry the balance is 0, so the debit is 0 as well
                // and there is nothing to write.
                proof {
                    lemma_lookup_absent::<Address, i128>(s0, account);
                }
            },
        }
    }
}

} // verus!
