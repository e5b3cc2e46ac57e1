use vstd::prelude::*;

verus! {

broadcast use vstd::array::group_array_axioms;

/// Lifecycle state of a bounty. Transitions are strictly forward:
/// `Open -> Submitted -> Settled`, with `Settled` terminal.
#[derive(Clone, Copy, Debug, PartialEq, Eq, Structural)]
pub enum BountyStatus {
    Open,
    Submitted,
    Settled,
}

/// An escrowed reward for solving a task, addressed by its identifier.
///
/// Created externally in `Open` status with no solution hash; mutated only
/// by submission (`Open -> Submitted`, hash recorded exactly once) and
/// settlement (`Submitted -> Settled`, hash kept).
#[derive(Clone, Copy, Debug, PartialEq, Eq)]
pub struct Bounty {
    /// Stable identifier; the bounty's record address is derived from it.
    pub id: u64,
    /// Identity entitled to settle the bounty.
    pub creator: u64,
    /// Units of value escrowed for the successful agent.
    pub reward: u64,
    /// Current lifecycle state.
    pub status: BountyStatus,
    /// Hash of the accepted solution, set at the `Open -> Submitted`
    /// transition and never cleared.
    pub solution_hash: Option<[u8; 32]>,
}

/// An immutable record binding an agent to the hash of its claimed solution
/// for a task, addressed by the task identifier.
#[derive(Clone, Copy, Debug, PartialEq, Eq)]
pub struct Attestation {
    /// Task identifier this attestation is keyed by.
    pub solution_id: u64,
    /// Hash of the claimed solution.
    pub solution_hash: [u8; 32],
    /// Ledger time at which the attestation was registered.
    pub timestamp: i64,
    /// Identity of the attesting agent.
    pub agent: u64,
    /// Reserved for an external auditor; never set by this core.
    pub verified: bool,
    /// Address-derivation nonce of the record.
    pub bump: u8,
}

/// A per-agent running tally of submissions, successes and earnings,
/// addressed by the agent identity. All counters are monotone and every
/// increment is overflow-checked.
#[derive(Clone, Copy, Debug, PartialEq, Eq)]
pub struct Reputation {
    /// Identity of the agent this record belongs to.
    pub agent: u64,
    /// Number of solution submissions; starts at 1 on first submission.
    pub score: u64,
    /// Number of settled bounties won by the agent.
    pub successful_bounties: u64,
    /// Number of failed bounties; untouched by this core.
    pub failed_bounties: u64,
    /// Cumulative value earned through settlements.
    pub total_earned: u64,
    /// Address-derivation nonce of the record.
    pub bump: u8,
}

/// A bounty record is well formed when its status and its solution hash
/// agree: exactly the states reachable from `Open` through submission and
/// settlement.
pub open spec fn bounty_wf(b: Bounty) -> bool {
    match b.status {
        BountyStatus::Open => b.solution_hash is None,
        BountyStatus::Submitted => b.solution_hash is Some,
        BountyStatus::Settled => b.solution_hash is Some,
    }
}

/// Byte-for-byte equality of two solution hashes.
pub fn hash_eq(a: &[u8; 32], b: &[u8; 32]) -> (r: bool)
    ensures
        r == (*a == *b),
{
    let mut i: usize = 0;
    while i < 32
        invariant
            0 <= i <= 32,
            forall|j: int| 0 <= j < i ==> a@[j] == b@[j],
        decreases 32 - i,
    {
        if a[i] != b[i] {
            return false;
        }
        i += 1;
    }
    proof {
        assert(*a =~= *b);
    }
    true
}

} // verus!
