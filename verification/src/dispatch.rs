//! Ownership bookkeeping for cross-thread dispatch. Work posted to the UI
//! thread is held in a table owned by the facade: posting stores the work
//! under a fresh token, the token alone crosses the opaque native boundary,
//! and the reverse call reclaims the entry exactly once. Double reclamation
//! and use-after-reclaim are structurally impossible: a reclaimed token is no
//! longer in the table, so a second reclamation finds nothing.

use vstd::prelude::*;
use std::collections::HashMap;

verus! {

broadcast use vstd::std_specs::hash::group_hash_axioms;

/// A unit of work posted to the UI thread. Worker threads never touch the
/// surface directly; they describe the call, and the UI thread performs it.
#[derive(Debug, Clone, PartialEq, Eq)]
pub enum Command {
    /// Run the script on the top-level page.
    EvalScript(String),
    /// Apply the style string to the loaded document.
    InjectCss(String),
}

/// Table of dispatched work that has been accepted but not yet run on the
/// UI thread. Tokens are minted from a counter and never reused, so a token
/// identifies one posting for the table's whole lifetime.
pub struct CallbackTable<T> {
    next_token: u64,
    pending: HashMap<u64, T>,
}

impl<T> CallbackTable<T> {
    /// The work currently in flight, by token.
    pub closed spec fn pending(self) -> Map<u64, T> {
        self.pending@
    }

    /// The token the next registration will receive. Tokens are minted in
    /// increasing order, so this also bounds every token ever handed out.
    pub closed spec fn next_token(self) -> u64 {
        self.next_token
    }

    /// Every pending token was minted by the counter, hence lies below it.
    pub closed spec fn wf(self) -> bool {
        forall|k: u64| self.pending@.contains_key(k) ==> k < self.next_token
    }

    /// An empty table, with no work in flight and the counter at zero.
    pub fn new() -> (r: CallbackTable<T>)
        ensures
            r.wf(),
            r.pending() == Map::<u64, T>::empty(),
            r.next_token() == 0,
    {
        CallbackTable { next_token: 0, pending: HashMap::new() }
    }

    /// Accepts one unit of work and hands back its token. The token is
    /// fresh: no earlier registration received it, and nothing is pending
    /// under it at the moment it is minted.
    pub fn register(&mut self, item: T) -> (token: u64)
        requires
            old(self).wf(),
            old(self).next_token() < u64::MAX,
        ensures
            final(self).wf(),
            token == old(self).next_token(),
            !old(self).pending().contains_key(token),
            final(self).pending() == old(self).pending().insert(token, item),
            final(self).next_token() == old(self).next_token() + 1,
    {
        let token = self.next_token;
        self.next_token = self.next_token + 1;
        self.pending.insert(token, item);
        token
    }

    /// How many units of work are in flight.
    pub fn len(&self) -> (r: usize)
        ensures
            r == self.pending().len(),
    {
        self.pending.len()
    }

    /// Reclaims the work posted under a token: returns it and removes the
    /// entry if the token is pending, and returns nothing otherwise. Each
    /// posting is reclaimed at most once, since the first reclamation
    /// removes the entry the token named.
    pub fn reclaim(&mut self, token: u64) -> (r: Option<T>)
        requires
            old(self).wf(),
        ensures
            final(self).wf(),
            r is Some <==> old(self).pending().contains_key(token),
            r matches Some(item) ==> item == old(self).pending()[token],
            final(self).pending() == old(self).pending().remove(token),
            final(self).next_token() == old(self).next_token(),
    {
        let r = self.pending.remove(&token);
        proof {
            if r is None {
                assert(self.pending@ =~= old(self).pending@.remove(token));
            }
        }
        r
    }
}

/// Law: reclamation is exactly once. Once a reclamation has removed a
/// token's entry — which is what `reclaim` ensures of the table whenever it
/// returns the work — the token is pending no longer, so a second
/// reclamation of the same token returns nothing.
pub proof fn lemma_reclaim_exactly_once<T>(before: Map<u64, T>, after: Map<u64, T>, token: u64)
    requires
        after == before.remove(token),
    ensures
        !after.contains_key(token),
{
}

/// Law: reclamations do not interfere. Reclaiming one token leaves every
/// other posting in place, unchanged — no unit of work is lost or altered by
/// another unit's reclamation.
pub proof fn lemma_reclaim_leaves_others<T>(
    before: Map<u64, T>,
    after: Map<u64, T>,
    token: u64,
    other: u64,
)
    requires
        after == before.remove(token),
        other != token,
        before.contains_key(other),
    ensures
        after.contains_key(other),
        after[other] == before[other],
{
}

} // verus!
