use crate::state::Reputation;
use std::collections::HashMap;
use vstd::prelude::*;

verus! {

broadcast use vstd::std_specs::hash::group_hash_axioms;

/// What a lookup at `agent` yields: the record if one exists, `None`
/// before the agent's first successful submission.
pub open spec fn reputation_at(m: Map<u64, Reputation>, agent: u64) -> Option<Reputation> {
    if m.contains_key(agent) {
        Some(m[agent])
    } else {
        None
    }
}

/// Keyed store of reputation records: one mutable record per agent,
/// addressed by the agent identity and lazily created on the agent's
/// first successful submission.
pub struct ReputationStore {
    reputations: HashMap<u64, Reputation>,
}

impl View for ReputationStore {
    type V = Map<u64, Reputation>;

    closed spec fn view(&self) -> Map<u64, Reputation> {
        self.reputations@
    }
}

impl ReputationStore {
    /// Every stored record sits at the address derived from its own agent
    /// identity.
    pub open spec fn wf(self) -> bool {
        forall|a: u64| self@.contains_key(a) ==> (#[trigger] self@[a]).agent == a
    }

    /// An empty store.
    pub fn new() -> (r: ReputationStore)
        ensures
            r@ == Map::<u64, Reputation>::empty(),
            r.wf(),
    {
        ReputationStore { reputations: HashMap::new() }
    }

    /// Looks the record for `agent` up, copying it out.
    pub fn get(&self, agent: u64) -> (r: Option<Reputation>)
        ensures
            r == reputation_at(self@, agent),
    {
        match self.reputations.get(&agent) {
            Some(rep) => Some(*rep),
            None => None,
        }
    }

    /// Writes `rep` at its owning agent's address, creating or replacing
    /// the record there.
    pub fn store(&mut self, rep: Reputation)
        requires
            old(self).wf(),
        ensures
            final(self).wf(),
            final(self)@ == old(self)@.insert(rep.agent, rep),
    {
        self.reputations.insert(rep.agent, rep);
    }
}

} // verus!
