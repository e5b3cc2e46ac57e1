use crate::state::Attestation;
use vstd::prelude::*;

verus! {

/// The record an attestation call produces: it binds `agent` to
/// `solution_hash` for the task `solution_id`, at ledger time `timestamp`,
/// unverified, with the record's address-derivation nonce.
pub open spec fn attestation_record(
    agent: u64,
    solution_id: u64,
    solution_hash: [u8; 32],
    timestamp: i64,
    bump: u8,
) -> Attestation {
    Attestation {
        solution_id,
        solution_hash,
        timestamp,
        agent,
        verified: false,
        bump,
    }
}

/// Transaction context of an attestation: the signing agent about to
/// register a proof of its solution.
#[derive(Clone, Copy, Debug)]
pub struct AttestSolution {
    /// Identity of the signing agent.
    pub agent: u64,
}

impl AttestSolution {
    /// Builds the immutable attestation record for `solution_id`, recording
    /// the signer as its owning agent, the given ledger time, and
    /// `verified = false`. Touches no bounty or reputation state; storing
    /// the record (and rejecting a duplicate) is the registry's part.
    pub fn attest_solution(
        &self,
        solution_id: u64,
        solution_hash: [u8; 32],
        timestamp: i64,
        bump: u8,
    ) -> (a: Attestation)
        ensures
            a == attestation_record(self.agent, solution_id, solution_hash, timestamp, bump),
    {
        Attestation {
            solution_id,
            solution_hash,
            timestamp,
            agent: self.agent,
            verified: false,
            bump,
        }
    }
}

} // verus!
