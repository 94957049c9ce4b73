//! The state persistence collaborator: durably saves updated per-peer
//! session state after a successful decrypt.
//!
//! Modelled as the log of peer addresses whose sessions were saved, plus an
//! optional injected fault: when the fault is set, every save fails with the
//! injected diagnostic and the log is untouched.

use vstd::prelude::*;

verus! {

/// The persistence collaborator model.
pub struct StateManager {
    saved: Vec<String>,
    fail_with: Option<String>,
}

/// Mathematical model of the persistence collaborator.
pub ghost struct StateManagerView {
    pub saved: Seq<Seq<char>>,
    pub fail_with: Option<Seq<char>>,
}

impl View for StateManager {
    type V = StateManagerView;

    closed spec fn view(&self) -> StateManagerView {
        StateManagerView {
            saved: self.saved@.map_values(|s: String| s@),
            fail_with: match self.fail_with {
                Some(ref e) => Some(e@),
                None => None,
            },
        }
    }
}

impl StateManager {
    /// A persistence collaborator whose saves all succeed.
    pub fn new() -> (r: StateManager)
        ensures
            r@ == (StateManagerView { saved: Seq::empty(), fail_with: None }),
    {
        let r = StateManager { saved: Vec::new(), fail_with: None };
        proof {
            assert(r@.saved =~= Seq::<Seq<char>>::empty());
        }
        r
    }

    /// A persistence collaborator whose saves all fail with `diagnostic`.
    pub fn new_failing(diagnostic: String) -> (r: StateManager)
        ensures
            r@ == (StateManagerView { saved: Seq::empty(), fail_with: Some(diagnostic@) }),
    {
        let r = StateManager { saved: Vec::new(), fail_with: Some(diagnostic) };
        proof {
            assert(r@.saved =~= Seq::<Seq<char>>::empty());
        }
        r
    }

    /// Durably saves the session state of the peer at `address`; fails
    /// exactly when the injected fault is set.
    pub fn save_peer_sessions(&mut self, address: &String) -> (r: Result<(), String>)
        ensures
            match old(self)@.fail_with {
                None => r is Ok && final(self)@ == (StateManagerView {
                    saved: old(self)@.saved.push(address@),
                    ..old(self)@
                }),
                Some(m) => r matches Err(e) && e@ == m && final(self)@ == old(self)@,
            },
    {
        match &self.fail_with {
            Some(e) => Err(e.clone()),
            None => {
                self.saved.push(address.clone());
                proof {
                    assert(self@.saved =~= old(self)@.saved.push(address@));
                }
                Ok(())
            },
        }
    }

    /// The peers whose sessions were saved, oldest first.
    pub fn saved_peers(&self) -> (r: &Vec<String>)
        ensures
            r@.map_values(|s: String| s@) == self@.saved,
    {
        &self.saved
    }
}

} // verus!
