use vstd::prelude::*;

use crate::storage_types::Address;

verus! {

/// The authorization capability handed in by the enclosing environment.
///
/// A context carries the principals on whose behalf the current operation was
/// invoked. An operation that requires a principal's authorization fails as a
/// whole unless the context grants that principal; the ledger itself never
/// verifies signatures, it only consults this capability.
pub struct AuthContext {
    granted: Vec<Address>,
}

impl AuthContext {
    /// Whether the context grants `who`'s authorization.
    pub closed spec fn spec_allows(self, who: Address) -> bool {
        self.granted@.contains(who)
    }

    /// A context that authorizes nobody.
    pub fn empty() -> (r: AuthContext)
        ensures
            forall|b: Address| !r.spec_allows(b),
    {
        let r = AuthContext { granted: Vec::new() };
        r
    }

    /// A context that authorizes exactly one principal.
    pub fn for_principal(who: Address) -> (r: AuthContext)
        ensures
            forall|b: Address| r.spec_allows(b) <==> b == who,
    {
        let mut granted: Vec<Address> = Vec::new();
        granted.push(who);
        let r = AuthContext { granted };
        proof {
            assert forall|b: Address| r.spec_allows(b) <==> b == who by {
                if b == who {
                    assert(r.granted@[0] == who);
                }
            }
        }
        r
    }

    /// Additionally authorizes `who`.
    pub fn grant(&mut self, who: Address)
        ensures
            forall|b: Address|
                final(self).spec_allows(b) <==> (b == who || old(self).spec_allows(b)),
    {
        let ghost s0 = self.granted@;
        self.granted.push(who);
        proof {
            assert forall|b: Address|
                final(self).spec_allows(b) <==> (b == who || old(self).spec_allows(b)) by {
                if b == who {
                    assert(self.granted@[s0.len() as int] == who);
                } else {
                    assert forall|k: int| 0 <= k < s0.len() && s0[k] == b
                        implies self.granted@[k] == b by {}
                    assert forall|k: int| 0 <= k < self.granted@.len() && self.granted@[k] == b
                        implies s0[k] == b by {}
                }
            }
        }
    }

    /// Checks the capability for one principal.
    pub fn allows(&self, who: Address) -> (r: bool)
        ensures
            r == self.spec_allows(who),
    {
        let n = self.granted.len();
        let mut i: usize = 0;
        while i < n
            invariant
                i <= n,
                n == self.granted@.len(),
                forall|k: int| 0 <= k < i ==> self.granted@[k] != who,
            decreases n - i,
        {
            if self.granted[i] == who {
                proof {
                    assert(self.granted@[i as int] == who);
                }
                return true;
            }
            i = i + 1;
        }
        false
    }
}

} // verus!
