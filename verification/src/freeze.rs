use vstd::prelude::*;

use crate::storage_types::{Address, FreezeInfo};
use crate::store::{
    lookup, unique_keys, lemma_lookup_at_index, lemma_lookup_absent, lemma_lookup_update,
    lemma_lookup_push, lemma_lookup_remove, lemma_update_same_key_unique,
    lemma_push_fresh_key_unique, lemma_remove_unique,
};

verus! {

/// Per-account freeze records. A record persists physically until it is
/// overwritten or removed; whether a freeze is *active* is recomputed at read
/// time from the stored expiration boundary, never by a background cleanup.
pub struct FreezeStore {
    entries: Vec<(Address, FreezeInfo)>,
}

impl FreezeStore {
    /// Entries carry unique keys.
    pub closed spec fn wf(self) -> bool {
        unique_keys(self.entries@)
    }

    /// The physically stored record for an account, active or not.
    pub closed spec fn spec_record(self, account: Address) -> Option<FreezeInfo> {
        lookup(self.entries@, account)
    }

    pub fn new() -> (r: FreezeStore)
        ensures
            r.wf(),
            forall|a: Address| r.spec_record(a) is None,
    {
        let r = FreezeStore { entries: Vec::new() };
        proof {
            assert forall|a: Address| r.spec_record(a) is None by {
                lemma_lookup_absent::<Address, FreezeInfo>(r.entries@, a);
            }
        }
        r
    }

    fn find_index(&self, account: Address) -> (r: Option<usize>)
        ensures
            match r {
                Some(i) => i < self.entries@.len() && self.entries@[i as int].0 == account
                    && forall|k: int| 0 <= k < i ==> self.entries@[k].0 != account,
                None => forall|k: int|
                    0 <= k < self.entries@.len() ==> self.entries@[k].0 != account,
            },
    {
        let n = self.entries.len();
        let mut i: usize = 0;
        while i < n
            invariant
                i <= n,
                n == self.entries@.len(),
                forall|k: int| 0 <= k < i ==> self.entries@[k].0 != account,
            decreases n - i,
        {
            if self.entries[i].0 == account {
                return Some(i);
            }
            i = i + 1;
        }
        None
    }

    /// Whether a record is physically present for the account.
    pub fn has(&self, account: Address) -> (r: bool)
        ensures
            r == (self.spec_record(account) is Some),
    {
        let found = self.find_index(account);
        proof {
            match found {
                Some(i) => lemma_lookup_at_index(self.entries@, account, i as int),
                None => lemma_lookup_absent::<Address, FreezeInfo>(self.entries@, account),
            }
        }
        found.is_some()
    }

    /// A copy of the stored record for the account, or nothing.
    pub fn get(&self, account: Address) -> (r: Option<FreezeInfo>)
        ensures
            r == self.spec_record(account),
    {
        match self.find_index(account) {
            Some(i) => {
                proof {
                    lemma_lookup_at_index(self.entries@, account, i as int);
                }
                let stored = &self.entries[i].1;
                let copy = FreezeInfo {
                    expiration_ledger: stored.expiration_ledger,
                    reason: stored.reason.clone(),
                    compliance_tag: stored.compliance_tag,
                };
                Some(copy)
            },
            None => {
                proof {
                    lemma_lookup_absent::<Address, FreezeInfo>(self.entries@, account);
                }
                None
            },
        }
    }

    /// Stores a record for the account, overwriting any prior one.
    pub fn set(&mut self, account: Address, info: FreezeInfo)
        requires
            old(self).wf(),
        ensures
            final(self).wf(),
            final(self).spec_record(account) == Some(info),
            forall|b: Address| b != account
                ==> final(self).spec_record(b) == old(self).spec_record(b),
    {
        let ghost s0 = self.entries@;
        let x = (account, info);
        match self.find_index(account) {
            Some(i) => {
                self.entries[i] = x;
                proof {
                    lemma_update_same_key_unique(s0, i as int, x);
                    assert forall|b: Address| b != account
                        implies final(self).spec_record(b) == old(self).spec_record(b) by {
                        lemma_lookup_update(s0, i as int, x, b);
                    }
                    lemma_lookup_update(s0, i as int, x, account);
                }
            },
            None => {
                self.entries.push(x);
                proof {
                    lemma_push_fresh_key_unique(s0, x);
                    assert forall|b: Address| b != account
                        implies final(self).spec_record(b) == old(self).spec_record(b) by {
                        lemma_lookup_push(s0, x, b);
                    }
                    lemma_lookup_push(s0, x, account);
                }
            },
        }
    }

    /// Removes the record for the account if one is present.
    pub fn remove(&mut self, account: Address)
        requires
            old(self).wf(),
        ensures
            final(self).wf(),
            final(self).spec_record(account) is None,
            forall|b: Address| b != account
                ==> final(self).spec_record(b) == old(self).spec_record(b),
    {
        let ghost s0 = self.entries@;
        match self.find_index(account) {
            Some(i) => {
                self.entries.remove(i);
                proof {
                    lemma_remove_unique(s0, i as int);
                    assert forall|b: Address| b != account
                        implies final(self).spec_record(b) == old(self).spec_record(b) by {
                        lemma_lookup_remove(s0, i as int, b);
                    }
                    lemma_lookup_remove(s0, i as int, account);
                }
            },
            None => {
                proof {
                    lemma_lookup_absent::<Address, FreezeInfo>(s0, account);
                }
            },
        }
    }
}

} // verus!
