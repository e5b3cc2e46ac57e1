use crate::errors::BountyForgeError;
use crate::state::{hash_eq, Attestation, Bounty, BountyStatus, Reputation};
use vstd::prelude::*;

verus! {

/// Transaction context of a submission: the signing agent, the bounty it
/// targets, the attestation it relies on, and the agent's reputation
/// record if one exists yet.
#[derive(Clone, Copy, Debug)]
pub struct SubmitSolution {
    /// Identity of the signing agent.
    pub agent: u64,
    /// The targeted bounty record.
    pub bounty: Bounty,
    /// The attestation the agent registered earlier.
    pub attestation: Attestation,
    /// The agent's reputation record; `None` until first submission.
    pub reputation: Option<Reputation>,
}

/// When a submission of `h` is accepted: the bounty is open and bare of a
/// solution hash, the attestation belongs to the caller and attests
/// exactly `h`, and crediting the score cannot overflow.
pub open spec fn submit_accepted(s: SubmitSolution, h: [u8; 32]) -> bool {
    &&& s.bounty.status is Open
    &&& s.bounty.solution_hash is None
    &&& s.attestation.agent == s.agent
    &&& s.attestation.solution_hash == h
    &&& (s.reputation matches Some(r) ==> r.score < u64::MAX)
}

/// The error a rejected submission reports, checks in their fixed order:
/// bounty state first, then ownership, then hash integrity, then
/// arithmetic.
pub open spec fn submit_rejection(s: SubmitSolution, h: [u8; 32]) -> BountyForgeError {
    if !(s.bounty.status is Open) {
        BountyForgeError::BountyNotOpen
    } else if !(s.bounty.solution_hash is None) {
        BountyForgeError::BountyAlreadySubmitted
    } else if s.attestation.agent != s.agent {
        BountyForgeError::AttestationOwnerMismatch
    } else if s.attestation.solution_hash != h {
        BountyForgeError::SolutionHashMismatch
    } else {
        BountyForgeError::ReputationScoreOverflow
    }
}

/// The bounty after a successful submission of `h`: status `Submitted`,
/// hash recorded, everything else untouched.
pub open spec fn submitted_bounty(b: Bounty, h: [u8; 32]) -> Bounty {
    Bounty { status: BountyStatus::Submitted, solution_hash: Some(h), ..b }
}

/// The reputation record after a successful submission: created with score
/// 1 on the agent's first submission, otherwise the existing record with
/// its score incremented.
pub open spec fn scored_reputation(rep: Option<Reputation>, agent: u64, bump: u8) -> Reputation {
    match rep {
        None => Reputation {
            agent,
            score: 1,
            successful_bounties: 0,
            failed_bounties: 0,
            total_earned: 0,
            bump,
        },
        Some(r) => Reputation { score: (r.score + 1) as u64, ..r },
    }
}

impl SubmitSolution {
    /// Submits the solution hashed as `solution_hash` against the bounty.
    ///
    /// Succeeds exactly when the bounty is open with no recorded hash, the
    /// attestation is owned by the caller and matches the submitted hash,
    /// and the score increment cannot overflow; it then records the hash,
    /// moves the bounty to `Submitted` and upserts the caller's reputation
    /// (`reputation_bump` seeds a newly created record's nonce). Any
    /// failing check aborts with its named error and no state change.
    pub fn submit_solution(
        &mut self,
        solution_hash: [u8; 32],
        reputation_bump: u8,
    ) -> (r: Result<(), BountyForgeError>)
        ensures
            r is Ok <==> submit_accepted(*old(self), solution_hash),
            r is Ok ==> *final(self) == (SubmitSolution {
                bounty: submitted_bounty(old(self).bounty, solution_hash),
                reputation: Some(
                    scored_reputation(old(self).reputation, old(self).agent, reputation_bump),
                ),
                ..*old(self)
            }),
            r is Err ==> *final(self) == *old(self),
            r matches Err(e) ==> e == submit_rejection(*old(self), solution_hash),
    {
        if self.bounty.status != BountyStatus::Open {
            return Err(BountyForgeError::BountyNotOpen);
        }
        if self.bounty.solution_hash.is_some() {
            return Err(BountyForgeError::BountyAlreadySubmitted);
        }
        if self.attestation.agent != self.agent {
            return Err(BountyForgeError::AttestationOwnerMismatch);
        }
        if !hash_eq(&self.attestation.solution_hash, &solution_hash) {
            return Err(BountyForgeError::SolutionHashMismatch);
        }
        match self.reputation {
            None => {
                self.reputation = Some(
                    Reputation {
                        agent: self.agent,
                        score: 1,
                        successful_bounties: 0,
                        failed_bounties: 0,
                        total_earned: 0,
                        bump: reputation_bump,
                    },
                );
            },
            Some(r) => {
                if r.score == u64::MAX {
                    return Err(BountyForgeError::ReputationScoreOverflow);
                }
                self.reputation = Some(Reputation { score: r.score + 1, ..r });
            },
        }
        self.bounty.solution_hash = Some(solution_hash);
        self.bounty.status = BountyStatus::Submitted;
        Ok(())
    }
}

} // verus!
