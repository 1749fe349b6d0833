//! Evidence of which identities have endorsed the current call.
//!
//! The hosting environment authenticates callers (signatures, host-level
//! auth); the core only sees the outcome: a context listing the identities
//! that are endorsed for this one invocation.

use vstd::prelude::*;
use crate::store::Identity;

verus! {

/// The set of identities the environment has authenticated for the current
/// call. An operation invoked by `caller` demands `is_endorsed(caller)`;
/// a caller missing from the context is unauthenticated, an endorsed caller
/// lacking the required role is unauthorized.
pub struct AuthContext {
    endorsed: Vec<Identity>,
}

impl View for AuthContext {
    type V = Seq<Identity>;

    closed spec fn view(&self) -> Seq<Identity> {
        self.endorsed@
    }
}

impl AuthContext {
    /// A context in which nobody is endorsed.
    pub fn new() -> (r: AuthContext)
        ensures
            r@ == Seq::<Identity>::empty(),
    {
        AuthContext { endorsed: Vec::new() }
    }

    /// Record that the environment authenticated `who` for this call.
    pub fn endorse(&mut self, who: Identity)
        ensures
            final(self)@ == old(self)@.push(who),
    {
        self.endorsed.push(who);
    }

    /// Whether `who` has endorsed the current call.
    pub fn is_endorsed(&self, who: Identity) -> (r: bool)
        ensures
            r == self@.contains(who),
    {
        let mut i: usize = 0;
        while i < self.endorsed.len()
            invariant
                0 <= i <= self.endorsed.len(),
                forall|j: int| 0 <= j < i ==> self.endorsed@[j] != who,
            decreases self.endorsed.len() - i,
        {
            if self.endorsed[i] == who {
                return true;
            }
            i = i + 1;
        }
        false
    }
}

} // verus!
