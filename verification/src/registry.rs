use crate::attest_solution::{attestation_record, AttestSolution};
use crate::errors::BountyForgeError;
use crate::state::Attestation;
use std::collections::HashMap;
use vstd::prelude::*;

verus! {

broadcast use vstd::std_specs::hash::group_hash_axioms;

/// When the registry accepts an attestation for `task_id`: only while no
/// record exists at that identifier yet.
pub open spec fn attest_accepted(m: Map<u64, Attestation>, task_id: u64) -> bool {
    !m.contains_key(task_id)
}

/// Keyed store of attestations: at most one immutable record per task
/// identifier, created atomically if absent and never overwritten.
pub struct AttestationRegistry {
    attestations: HashMap<u64, Attestation>,
}

impl View for AttestationRegistry {
    type V = Map<u64, Attestation>;

    closed spec fn view(&self) -> Map<u64, Attestation> {
        self.attestations@
    }
}

impl AttestationRegistry {
    /// Every stored attestation sits at the address derived from its own
    /// task identifier.
    pub open spec fn wf(self) -> bool {
        forall|t: u64| self@.contains_key(t) ==> (#[trigger] self@[t]).solution_id == t
    }

    /// An empty registry.
    pub fn new() -> (r: AttestationRegistry)
        ensures
            r@ == Map::<u64, Attestation>::empty(),
            r.wf(),
    {
        AttestationRegistry { attestations: HashMap::new() }
    }

    /// Registers an attestation binding `caller` to `solution_hash` for
    /// `task_id`, at ledger time `timestamp`, with the record's
    /// address-derivation nonce.
    ///
    /// First writer wins: if any record already exists at `task_id`, the
    /// call fails with `DuplicateAttestation` — whatever hash it holds —
    /// and the registry is unchanged. On success the new record is
    /// returned and stored, and nothing else is touched.
    pub fn attest(
        &mut self,
        task_id: u64,
        solution_hash: [u8; 32],
        caller: u64,
        timestamp: i64,
        bump: u8,
    ) -> (r: Result<Attestation, BountyForgeError>)
        requires
            old(self).wf(),
        ensures
            final(self).wf(),
            r is Ok <==> attest_accepted(old(self)@, task_id),
            r matches Ok(a) ==> {
                &&& a == attestation_record(caller, task_id, solution_hash, timestamp, bump)
                &&& final(self)@ == old(self)@.insert(task_id, a)
            },
            r is Err ==> final(self)@ == old(self)@,
            r matches Err(e) ==> e == BountyForgeError::DuplicateAttestation,
    {
        if self.attestations.contains_key(&task_id) {
            return Err(BountyForgeError::DuplicateAttestation);
        }
        let ctx = AttestSolution { agent: caller };
        let a = ctx.attest_solution(task_id, solution_hash, timestamp, bump);
        self.attestations.insert(task_id, a);
        proof {
            assert forall|t: u64| self@.contains_key(t) implies (#[trigger] self@[t]).solution_id
                == t by {
                if t != task_id {
                    assert(old(self)@.contains_key(t));
                }
            }
        }
        Ok(a)
    }

    /// Looks the attestation for `task_id` up, copying it out.
    pub fn get(&self, task_id: u64) -> (r: Option<Attestation>)
        ensures
            r is Some <==> self@.contains_key(task_id),
            r matches Some(a) ==> a == self@[task_id],
    {
        match self.attestations.get(&task_id) {
            Some(a) => Some(*a),
            None => None,
        }
    }
}

} // verus!
