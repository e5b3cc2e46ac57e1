use bountyforge::errors::BountyForgeError;
use bountyforge::escrow::{EscrowTransferService, TokenAccount};
use bountyforge::settle_bounty::SettleBounty;
use bountyforge::state::{Bounty, BountyStatus, Reputation};

const AGENT: u64 = 11;
const CREATOR: u64 = 22;
const MINT: u64 = 900;

fn submitted_bounty() -> Bounty {
    Bounty {
        id: 42,
        creator: CREATOR,
        reward: 100,
        status: BountyStatus::Submitted,
        solution_hash: Some([7u8; 32]),
    }
}

fn payee_reputation() -> Reputation {
    Reputation {
        agent: AGENT,
        score: 1,
        successful_bounties: 0,
        failed_bounties: 0,
        total_earned: 0,
        bump: 253,
    }
}

fn settle_ctx() -> SettleBounty {
    SettleBounty {
        creator: CREATOR,
        bounty: submitted_bounty(),
        reputation: payee_reputation(),
        agent: AGENT,
        agent_token_account: TokenAccount { owner: AGENT, mint: MINT, amount: 25 },
        bounty_token_account: TokenAccount { owner: 42, mint: MINT, amount: 100 },
        usdc_mint: MINT,
        token_program: EscrowTransferService {},
    }
}

#[test]
fn settle_pays_and_credits() {
    let mut ctx = settle_ctx();
    assert_eq!(ctx.settle_bounty(), Ok(()));
    assert_eq!(ctx.bounty.status, BountyStatus::Settled);
    assert_eq!(ctx.bounty.solution_hash, Some([7u8; 32]));
    assert_eq!(ctx.bounty_token_account.amount, 0);
    assert_eq!(ctx.agent_token_account.amount, 125);
    assert_eq!(ctx.reputation.successful_bounties, 1);
    assert_eq!(ctx.reputation.total_earned, 100);
    assert_eq!(ctx.reputation.score, 1);
}

#[test]
fn settle_rejects_open_bounty() {
    let mut ctx = SettleBounty {
        bounty: Bounty { status: BountyStatus::Open, solution_hash: None, ..submitted_bounty() },
        ..settle_ctx()
    };
    assert_eq!(ctx.settle_bounty(), Err(BountyForgeError::BountyNotSubmitted));
    assert_eq!(ctx.bounty_token_account.amount, 100);
    assert_eq!(ctx.agent_token_account.amount, 25);
    assert_eq!(ctx.reputation.successful_bounties, 0);
}

#[test]
fn settle_rejects_missing_hash() {
    // A submitted record bare of its hash trips the guard-duplicate check.
    let mut ctx = SettleBounty {
        bounty: Bounty { solution_hash: None, ..submitted_bounty() },
        ..settle_ctx()
    };
    assert_eq!(ctx.settle_bounty(), Err(BountyForgeError::BountyAlreadySubmitted));
    assert_eq!(ctx.bounty_token_account.amount, 100);
    assert_eq!(ctx.reputation.successful_bounties, 0);
}

#[test]
fn settle_rejects_foreign_caller() {
    let mut ctx = SettleBounty { creator: 33, ..settle_ctx() };
    assert_eq!(ctx.settle_bounty(), Err(BountyForgeError::UnauthorizedSettlement));
    assert_eq!(ctx.bounty.status, BountyStatus::Submitted);
    assert_eq!(ctx.bounty_token_account.amount, 100);
}

#[test]
fn settle_rejects_foreign_reputation() {
    let mut ctx = SettleBounty {
        reputation: Reputation { agent: 99, ..payee_reputation() },
        ..settle_ctx()
    };
    assert_eq!(ctx.settle_bounty(), Err(BountyForgeError::ReputationOwnerMismatch));
    assert_eq!(ctx.bounty.status, BountyStatus::Submitted);
    assert_eq!(ctx.agent_token_account.amount, 25);
}

#[test]
fn settle_rejects_successes_overflow() {
    let mut ctx = SettleBounty {
        reputation: Reputation { successful_bounties: u64::MAX, ..payee_reputation() },
        ..settle_ctx()
    };
    assert_eq!(ctx.settle_bounty(), Err(BountyForgeError::ReputationOverflow));
    // Nothing moved and nothing was credited.
    assert_eq!(ctx.bounty_token_account.amount, 100);
    assert_eq!(ctx.agent_token_account.amount, 25);
    assert_eq!(ctx.reputation.total_earned, 0);
    assert_eq!(ctx.bounty.status, BountyStatus::Submitted);
}

#[test]
fn settle_rejects_earnings_overflow() {
    let mut ctx = SettleBounty {
        reputation: Reputation { total_earned: u64::MAX - 99, ..payee_reputation() },
        ..settle_ctx()
    };
    assert_eq!(ctx.settle_bounty(), Err(BountyForgeError::ReputationOverflow));
    assert_eq!(ctx.bounty_token_account.amount, 100);
    assert_eq!(ctx.reputation.successful_bounties, 0);
    assert_eq!(ctx.bounty.status, BountyStatus::Submitted);
}

#[test]
fn transfer_moves_exact_amount() {
    let service = EscrowTransferService {};
    let mut from = TokenAccount { owner: 42, mint: MINT, amount: 70 };
    let mut to = TokenAccount { owner: AGENT, mint: MINT, amount: 5 };
    service.transfer(&mut from, &mut to, 70);
    assert_eq!(from.amount, 0);
    assert_eq!(to.amount, 75);
    assert_eq!(from.owner, 42);
    assert_eq!(to.owner, AGENT);
}
