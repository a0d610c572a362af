use vstd::prelude::*;

use crate::storage_types::{AllowanceDataKey, AllowanceValue};
use crate::store::{
    lookup, unique_keys, lemma_lookup_at_index, lemma_lookup_absent, lemma_lookup_update,
    lemma_lookup_push, lemma_update_same_key_unique, lemma_push_fresh_key_unique,
};

verus! {

proof fn lemma_lookup_amount_nonneg(s: Seq<(AllowanceDataKey, AllowanceValue)>, key: AllowanceDataKey)
    requires
        forall|k: int| 0 <= k < s.len() ==> s[k].1.amount >= 0,
    ensures
        match lookup(s, key) {
            Some(v) => v.amount >= 0,
            None => true,
        },
    decreases s.len(),
{
    if s.len() > 0 && s[0].0 != key {
        assert forall|k: int| 0 <= k < s.drop_first().len() implies s.drop_first()[k].1.amount >= 0 by {
            assert(s.drop_first()[k] == s[k + 1]);
        }
        lemma_lookup_amount_nonneg(s.drop_first(), key);
    }
}

/// Per (owner, spender) pair: the authorized spend amount plus its expiration
/// boundary. Writing fully replaces the prior entry; a record is never
/// deleted, only overwritten.
pub struct AllowanceStore {
    entries: Vec<(AllowanceDataKey, AllowanceValue)>,
}

impl AllowanceStore {
    /// Entries carry unique keys and only nonnegative amounts.
    pub closed spec fn wf(self) -> bool {
        &&& unique_keys(self.entries@)
        &&& forall|k: int| 0 <= k < self.entries@.len() ==> self.entries@[k].1.amount >= 0
    }

    /// The stored record for a pair, expiration applied by the caller.
    pub closed spec fn spec_record(self, key: AllowanceDataKey) -> Option<AllowanceValue> {
        lookup(self.entries@, key)
    }

    /// A well-formed store never holds a negative allowance amount.
    pub proof fn lemma_record_nonneg(self, key: AllowanceDataKey)
        requires
            self.wf(),
        ensures
            match self.spec_record(key) {
                Some(v) => v.amount >= 0,
                None => true,
            },
    {
        lemma_lookup_amount_nonneg(self.entries@, key);
    }

    pub fn new() -> (r: AllowanceStore)
        ensures
            r.wf(),
            forall|k: AllowanceDataKey| r.spec_record(k) is None,
    {
        let r = AllowanceStore { entries: Vec::new() };
        proof {
            assert forall|k: AllowanceDataKey| r.spec_record(k) is None by {
                lemma_lookup_absent::<AllowanceDataKey, AllowanceValue>(r.entries@, k);
            }
        }
        r
    }

    fn find_index(&self, key: AllowanceDataKey) -> (r: Option<usize>)
        ensures
            match r {
                Some(i) => i < self.entries@.len() && self.entries@[i as int].0 == key
                    && forall|k: int| 0 <= k < i ==> self.entries@[k].0 != key,
                None => forall|k: int| 0 <= k < self.entries@.len() ==> self.entries@[k].0 != key,
            },
    {
        let n = self.entries.len();
        let mut i: usize = 0;
        while i < n
            invariant
                i <= n,
                n == self.entries@.len(),
                forall|k: int| 0 <= k < i ==> self.entries@[k].0 != key,
            decreases n - i,
        {
            if self.entries[i].0 == key {
                return Some(i);
            }
            i = i + 1;
        }
        None
    }

    /// The stored record for a pair, or nothing when none was ever written.
    pub fn get(&self, key: AllowanceDataKey) -> (r: Option<AllowanceValue>)
        ensures
            r == self.spec_record(key),
    {
        match self.find_index(key) {
            Some(i) => {
                proof {
                    lemma_lookup_at_index(self.entries@, key, i as int);
                }
                Some(self.entries[i].1)
            },
            None => {
                proof {
                    lemma_lookup_absent::<AllowanceDataKey, AllowanceValue>(self.entries@, key);
                }
                None
            },
        }
    }

    /// Fully replaces the record for a pair; no accumulation.
    pub fn write(&mut self, key: AllowanceDataKey, value: AllowanceValue)
        requires
            old(self).wf(),
            value.amount >= 0,
        ensures
            final(self).wf(),
            final(self).spec_record(key) == Some(value),
            forall|k2: AllowanceDataKey| k2 != key
                ==> final(self).spec_record(k2) == old(self).spec_record(k2),
    {
        let ghost s0 = self.entries@;
        let x = (key, value);
        match self.find_index(key) {
            Some(i) => {
                self.entries[i] = x;
                proof {
                    lemma_update_same_key_unique(s0, i as int, x);
                    assert forall|k2: AllowanceDataKey| k2 != key
                        implies final(self).spec_record(k2) == old(self).spec_record(k2) by {
                        lemma_lookup_update(s0, i as int, x, k2);
                    }
                    lemma_lookup_update(s0, i as int, x, key);
                }
            },
            None => {
                self.entries.push(x);
                proof {
                    lemma_push_fresh_key_unique(s0, x);
                    assert forall|k2: AllowanceDataKey| k2 != key
                        implies final(self).spec_record(k2) == old(self).spec_record(k2) by {
                        lemma_lookup_push(s0, x, k2);
                    }
                    lemma_lookup_push(s0, x, key);
                }
            },
        }
    }
}

} // verus!
