use crate::errors::BountyForgeError;
use crate::escrow::{EscrowTransferService, TokenAccount};
use crate::state::{Bounty, BountyStatus, Reputation};
use vstd::prelude::*;

verus! {

/// Transaction context of a settlement: the signing creator, the bounty,
/// the payee agent with its reputation record, the two token accounts the
/// reward moves between, the expected asset kind, and the custody
/// capability that performs the transfer.
#[derive(Clone, Copy, Debug)]
pub struct SettleBounty {
    /// Identity of the signer claiming settlement authority.
    pub creator: u64,
    /// The bounty being settled.
    pub bounty: Bounty,
    /// The payee agent's reputation record.
    pub reputation: Reputation,
    /// Identity of the agent receiving the reward.
    pub agent: u64,
    /// The payee's token account.
    pub agent_token_account: TokenAccount,
    /// The bounty's escrow token account.
    pub bounty_token_account: TokenAccount,
    /// Asset kind both token accounts must hold.
    pub usdc_mint: u64,
    /// Capability for the external token-custody service.
    pub token_program: EscrowTransferService,
}

/// The ledger's account validation, established before the settlement body
/// runs: the payee's token account belongs to the payee, the escrow
/// account belongs to the bounty's derived authority, and both hold the
/// expected asset.
pub open spec fn settle_accounts_routed(s: SettleBounty) -> bool {
    &&& s.agent_token_account.owner == s.agent
    &&& s.agent_token_account.mint == s.usdc_mint
    &&& s.bounty_token_account.owner == s.bounty.id
    &&& s.bounty_token_account.mint == s.usdc_mint
}

/// When a settlement is accepted: the bounty is submitted and carries a
/// solution hash, the caller is its creator, the reputation record belongs
/// to the payee, and neither bookkeeping counter can overflow.
pub open spec fn settle_accepted(s: SettleBounty) -> bool {
    &&& s.bounty.status is Submitted
    &&& s.bounty.solution_hash is Some
    &&& s.creator == s.bounty.creator
    &&& s.reputation.agent == s.agent
    &&& s.reputation.successful_bounties < u64::MAX
    &&& s.reputation.total_earned + s.bounty.reward <= u64::MAX
}

/// The error a rejected settlement reports, checks in their fixed order:
/// bounty state first, then authorization, then record ownership, then
/// arithmetic.
pub open spec fn settle_rejection(s: SettleBounty) -> BountyForgeError {
    if !(s.bounty.status is Submitted) {
        BountyForgeError::BountyNotSubmitted
    } else if !(s.bounty.solution_hash is Some) {
        BountyForgeError::BountyAlreadySubmitted
    } else if s.creator != s.bounty.creator {
        BountyForgeError::UnauthorizedSettlement
    } else if s.reputation.agent != s.agent {
        BountyForgeError::ReputationOwnerMismatch
    } else {
        BountyForgeError::ReputationOverflow
    }
}

/// The bounty after a successful settlement: status `Settled`, everything
/// else (the solution hash included) untouched.
pub open spec fn settled_bounty(b: Bounty) -> Bounty {
    Bounty { status: BountyStatus::Settled, ..b }
}

/// The reputation record after a successful settlement: one more
/// successful bounty, earnings grown by the reward.
pub open spec fn credited_reputation(r: Reputation, reward: u64) -> Reputation {
    Reputation {
        successful_bounties: (r.successful_bounties + 1) as u64,
        total_earned: (r.total_earned + reward) as u64,
        ..r
    }
}

impl SettleBounty {
    /// Settles the bounty: pays exactly `bounty.reward` out of escrow to
    /// the payee and credits the payee's reputation, as one atomic unit.
    ///
    /// Succeeds exactly when the bounty is submitted with a recorded hash,
    /// the caller is its creator, the reputation record belongs to the
    /// payee, and neither counter increment overflows; any failing check
    /// aborts with its named error before anything — the transfer
    /// included — takes effect. The caller has already routed the token
    /// accounts and, on the success path, guarantees the escrow is funded
    /// and the payee balance cannot overflow: the bounty was escrowed with
    /// its reward at creation and only settlement moves value out.
    pub fn settle_bounty(&mut self) -> (r: Result<(), BountyForgeError>)
        requires
            settle_accounts_routed(*old(self)),
            settle_accepted(*old(self)) ==> {
                &&& old(self).bounty_token_account.amount >= old(self).bounty.reward
                &&& old(self).agent_token_account.amount + old(self).bounty.reward <= u64::MAX
            },
        ensures
            r is Ok <==> settle_accepted(*old(self)),
            r is Ok ==> *final(self) == (SettleBounty {
                bounty: settled_bounty(old(self).bounty),
                reputation: credited_reputation(old(self).reputation, old(self).bounty.reward),
                agent_token_account: TokenAccount {
                    amount: (old(self).agent_token_account.amount + old(self).bounty.reward) as u64,
                    ..old(self).agent_token_account
                },
                bounty_token_account: TokenAccount {
                    amount: (old(self).bounty_token_account.amount - old(self).bounty.reward) as u64,
                    ..old(self).bounty_token_account
                },
                ..*old(self)
            }),
            r is Err ==> *final(self) == *old(self),
            r matches Err(e) ==> e == settle_rejection(*old(self)),
    {
        if self.bounty.status != BountyStatus::Submitted {
            return Err(BountyForgeError::BountyNotSubmitted);
        }
        if self.bounty.solution_hash.is_none() {
            return Err(BountyForgeError::BountyAlreadySubmitted);
        }
        if self.creator != self.bounty.creator {
            return Err(BountyForgeError::UnauthorizedSettlement);
        }
        if self.reputation.agent != self.agent {
            return Err(BountyForgeError::ReputationOwnerMismatch);
        }
        if self.reputation.successful_bounties == u64::MAX {
            return Err(BountyForgeError::ReputationOverflow);
        }
        if self.bounty.reward > u64::MAX - self.reputation.total_earned {
            return Err(BountyForgeError::ReputationOverflow);
        }

        // Every check has passed: the effects below apply as a whole. The
        // transfer comes first so that value custody and bookkeeping can
        // never disagree.
        let reward = self.bounty.reward;
        let service = self.token_program;
        service.transfer(&mut self.bounty_token_account, &mut self.agent_token_account, reward);

        self.reputation.successful_bounties = self.reputation.successful_bounties + 1;
        self.reputation.total_earned = self.reputation.total_earned + reward;

        self.bounty.status = BountyStatus::Settled;
        Ok(())
    }
}

} // verus!
