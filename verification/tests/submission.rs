use bountyforge::errors::BountyForgeError;
use bountyforge::state::{Attestation, Bounty, BountyStatus, Reputation};
use bountyforge::submit_solution::SubmitSolution;

const AGENT: u64 = 11;
const CREATOR: u64 = 22;

fn open_bounty() -> Bounty {
    Bounty { id: 42, creator: CREATOR, reward: 100, status: BountyStatus::Open, solution_hash: None }
}

fn attestation_by(agent: u64, hash: [u8; 32]) -> Attestation {
    Attestation {
        solution_id: 7,
        solution_hash: hash,
        timestamp: 1000,
        agent,
        verified: false,
        bump: 254,
    }
}

fn reputation_with_score(score: u64) -> Reputation {
    Reputation {
        agent: AGENT,
        score,
        successful_bounties: 3,
        failed_bounties: 1,
        total_earned: 250,
        bump: 253,
    }
}

#[test]
fn submit_rejects_non_open_bounty() {
    let hash = [7u8; 32];
    let mut ctx = SubmitSolution {
        agent: AGENT,
        bounty: Bounty {
            status: BountyStatus::Submitted,
            solution_hash: Some(hash),
            ..open_bounty()
        },
        attestation: attestation_by(AGENT, hash),
        reputation: None,
    };
    let before = ctx.clone();
    assert_eq!(ctx.submit_solution(hash, 1), Err(BountyForgeError::BountyNotOpen));
    assert_eq!(ctx.bounty, before.bounty);
    assert_eq!(ctx.reputation, before.reputation);
}

#[test]
fn submit_rejects_recorded_hash() {
    let hash = [7u8; 32];
    let mut ctx = SubmitSolution {
        agent: AGENT,
        bounty: Bounty { solution_hash: Some([9u8; 32]), ..open_bounty() },
        attestation: attestation_by(AGENT, hash),
        reputation: None,
    };
    assert_eq!(ctx.submit_solution(hash, 1), Err(BountyForgeError::BountyAlreadySubmitted));
    assert_eq!(ctx.bounty.status, BountyStatus::Open);
}

#[test]
fn submit_rejects_foreign_attestation() {
    let hash = [7u8; 32];
    let mut ctx = SubmitSolution {
        agent: AGENT,
        bounty: open_bounty(),
        attestation: attestation_by(99, hash),
        reputation: None,
    };
    assert_eq!(ctx.submit_solution(hash, 1), Err(BountyForgeError::AttestationOwnerMismatch));
    assert_eq!(ctx.bounty.solution_hash, None);
}

#[test]
fn submit_rejects_mismatched_hash() {
    let attested = [7u8; 32];
    let mut submitted = attested;
    submitted[31] = 8;
    let mut ctx = SubmitSolution {
        agent: AGENT,
        bounty: open_bounty(),
        attestation: attestation_by(AGENT, attested),
        reputation: None,
    };
    assert_eq!(ctx.submit_solution(submitted, 1), Err(BountyForgeError::SolutionHashMismatch));
    assert_eq!(ctx.bounty.status, BountyStatus::Open);
    assert_eq!(ctx.bounty.solution_hash, None);
    assert_eq!(ctx.reputation, None);
}

#[test]
fn submit_records_hash_and_creates_reputation() {
    let hash = [7u8; 32];
    let mut ctx = SubmitSolution {
        agent: AGENT,
        bounty: open_bounty(),
        attestation: attestation_by(AGENT, hash),
        reputation: None,
    };
    assert_eq!(ctx.submit_solution(hash, 5), Ok(()));
    assert_eq!(ctx.bounty.status, BountyStatus::Submitted);
    assert_eq!(ctx.bounty.solution_hash, Some(hash));
    let rep = ctx.reputation.unwrap();
    assert_eq!(rep.agent, AGENT);
    assert_eq!(rep.score, 1);
    assert_eq!(rep.successful_bounties, 0);
    assert_eq!(rep.failed_bounties, 0);
    assert_eq!(rep.total_earned, 0);
    assert_eq!(rep.bump, 5);
}

#[test]
fn submit_increments_existing_score() {
    let hash = [7u8; 32];
    let mut ctx = SubmitSolution {
        agent: AGENT,
        bounty: open_bounty(),
        attestation: attestation_by(AGENT, hash),
        reputation: Some(reputation_with_score(41)),
    };
    assert_eq!(ctx.submit_solution(hash, 1), Ok(()));
    let rep = ctx.reputation.unwrap();
    assert_eq!(rep.score, 42);
    // Everything else in the record is untouched.
    assert_eq!(rep.successful_bounties, 3);
    assert_eq!(rep.failed_bounties, 1);
    assert_eq!(rep.total_earned, 250);
    assert_eq!(rep.bump, 253);
}

#[test]
fn submit_rejects_score_overflow() {
    let hash = [7u8; 32];
    let mut ctx = SubmitSolution {
        agent: AGENT,
        bounty: open_bounty(),
        attestation: attestation_by(AGENT, hash),
        reputation: Some(reputation_with_score(u64::MAX)),
    };
    assert_eq!(ctx.submit_solution(hash, 1), Err(BountyForgeError::ReputationScoreOverflow));
    // The score and the bounty are exactly as they were.
    assert_eq!(ctx.reputation.unwrap().score, u64::MAX);
    assert_eq!(ctx.bounty.status, BountyStatus::Open);
    assert_eq!(ctx.bounty.solution_hash, None);
}
