use crate::errors::BountyForgeError;
use crate::escrow::{EscrowTransferService, TokenAccount};
use crate::reputation::{reputation_at, ReputationStore};
use crate::settle_bounty::{
    credited_reputation, settle_accepted, settle_accounts_routed, settle_rejection, settled_bounty,
    SettleBounty,
};
use crate::state::{bounty_wf, Attestation, Bounty, BountyStatus, Reputation};
use crate::submit_solution::{
    scored_reputation, submit_accepted, submit_rejection, submitted_bounty, SubmitSolution,
};
use std::collections::HashMap;
use vstd::prelude::*;

verus! {

broadcast use vstd::std_specs::hash::group_hash_axioms;

/// The submission context the ledger assembles for a call: the caller, the
/// bounty at `bounty_id`, the given attestation, and the caller's
/// reputation record as the store holds it.
pub open spec fn submit_context(
    bounties: Map<u64, Bounty>,
    reputations: Map<u64, Reputation>,
    bounty_id: u64,
    attestation: Attestation,
    caller: u64,
) -> SubmitSolution {
    SubmitSolution {
        agent: caller,
        bounty: bounties[bounty_id],
        attestation,
        reputation: reputation_at(reputations, caller),
    }
}

/// The settlement context the ledger assembles for a call.
pub open spec fn settle_context(
    bounties: Map<u64, Bounty>,
    reputations: Map<u64, Reputation>,
    bounty_id: u64,
    caller: u64,
    agent: u64,
    agent_token_account: TokenAccount,
    bounty_token_account: TokenAccount,
    usdc_mint: u64,
) -> SettleBounty {
    SettleBounty {
        creator: caller,
        bounty: bounties[bounty_id],
        reputation: reputations[agent],
        agent,
        agent_token_account,
        bounty_token_account,
        usdc_mint,
        token_program: EscrowTransferService {},
    }
}

/// Keyed store of bounties and orchestrator of their lifecycle: it owns
/// the status and solution-hash fields, drives submission and settlement,
/// and holds the capability for the external token-custody service.
pub struct BountyLedger {
    bounties: HashMap<u64, Bounty>,
    escrow: EscrowTransferService,
}

impl View for BountyLedger {
    type V = Map<u64, Bounty>;

    closed spec fn view(&self) -> Map<u64, Bounty> {
        self.bounties@
    }
}

impl BountyLedger {
    /// Every stored bounty sits at the address derived from its own
    /// identifier, and its status agrees with its solution hash.
    pub open spec fn wf(self) -> bool {
        forall|id: u64| self@.contains_key(id) ==> {
            &&& (#[trigger] self@[id]).id == id
            &&& bounty_wf(self@[id])
        }
    }

    /// An empty ledger.
    pub fn new() -> (r: BountyLedger)
        ensures
            r@ == Map::<u64, Bounty>::empty(),
            r.wf(),
    {
        BountyLedger { bounties: HashMap::new(), escrow: EscrowTransferService {} }
    }

    /// Records a freshly funded bounty: `creator` has escrowed `reward`
    /// for it, and it starts its life `Open` with no solution hash. The
    /// funding flow guarantees the identifier is unused.
    pub fn open_bounty(&mut self, id: u64, creator: u64, reward: u64)
        requires
            old(self).wf(),
            !old(self)@.contains_key(id),
        ensures
            final(self).wf(),
            final(self)@ == old(self)@.insert(
                id,
                Bounty { id, creator, reward, status: BountyStatus::Open, solution_hash: None },
            ),
    {
        let b = Bounty { id, creator, reward, status: BountyStatus::Open, solution_hash: None };
        self.bounties.insert(id, b);
    }

    /// Looks the bounty at `id` up, copying it out.
    pub fn get_bounty(&self, id: u64) -> (r: Option<Bounty>)
        ensures
            r is Some <==> self@.contains_key(id),
            r matches Some(b) ==> b == self@[id],
    {
        match self.bounties.get(&id) {
            Some(b) => Some(*b),
            None => None,
        }
    }

    /// Submits the solution hashed as `solution_hash` against the bounty
    /// at `bounty_id`, relying on `attestation` and signed by `caller`.
    ///
    /// The call runs the submission transaction against the bounty record
    /// and the caller's reputation record: it succeeds exactly when the
    /// assembled context is accepted, writes both records back on
    /// success, and on any failure reports the context's named error and
    /// leaves both stores unchanged.
    pub fn submit(
        &mut self,
        bounty_id: u64,
        solution_hash: [u8; 32],
        attestation: &Attestation,
        caller: u64,
        reputations: &mut ReputationStore,
        reputation_bump: u8,
    ) -> (r: Result<(), BountyForgeError>)
        requires
            old(self).wf(),
            old(reputations).wf(),
            old(self)@.contains_key(bounty_id),
        ensures
            final(self).wf(),
            final(reputations).wf(),
            ({
                let ctx = submit_context(
                    old(self)@,
                    old(reputations)@,
                    bounty_id,
                    *attestation,
                    caller,
                );
                &&& (r is Ok <==> submit_accepted(ctx, solution_hash))
                &&& r is Ok ==> {
                    &&& final(self)@ == old(self)@.insert(
                        bounty_id,
                        submitted_bounty(ctx.bounty, solution_hash),
                    )
                    &&& final(reputations)@ == old(reputations)@.insert(
                        caller,
                        scored_reputation(ctx.reputation, caller, reputation_bump),
                    )
                }
                &&& r is Err ==> final(self)@ == old(self)@ && final(reputations)@ == old(
                    reputations,
                )@
                &&& (r matches Err(e) ==> e == submit_rejection(ctx, solution_hash))
            }),
    {
        let bounty: Bounty = match self.bounties.get(&bounty_id) {
            Some(b) => *b,
            None => vstd::pervasive::unreached(),
        };
        let reputation = reputations.get(caller);
        let mut ctx = SubmitSolution { agent: caller, bounty, attestation: *attestation, reputation };
        let r = ctx.submit_solution(solution_hash, reputation_bump);
        if r.is_ok() {
            self.bounties.insert(bounty_id, ctx.bounty);
            match ctx.reputation {
                Some(rep) => reputations.store(rep),
                None => proof {
                    assert(false);
                },
            }
            proof {
                assert forall|id: u64| self@.contains_key(id) implies {
                    &&& (#[trigger] self@[id]).id == id
                    &&& bounty_wf(self@[id])
                } by {
                    if id != bounty_id {
                        assert(old(self)@.contains_key(id));
                    }
                }
            }
        }
        r
    }

    /// Settles the bounty at `bounty_id`, signed by `caller`, paying the
    /// escrowed reward to `agent` and crediting that agent's reputation
    /// record.
    ///
    /// The ledger runtime has already routed the two token accounts to
    /// the payee and to the bounty's escrow authority, and — whenever the
    /// settlement is due to succeed — hands in an escrow funded with the
    /// reward and a payee balance that cannot overflow. The call succeeds
    /// exactly when the assembled context is accepted; on success the
    /// reward moves in full and both records are written back, and on any
    /// failure the context's named error is reported with nothing
    /// changed.
    pub fn settle(
        &mut self,
        bounty_id: u64,
        caller: u64,
        agent: u64,
        reputations: &mut ReputationStore,
        agent_token_account: &mut TokenAccount,
        bounty_token_account: &mut TokenAccount,
        usdc_mint: u64,
    ) -> (r: Result<(), BountyForgeError>)
        requires
            old(self).wf(),
            old(reputations).wf(),
            old(self)@.contains_key(bounty_id),
            old(reputations)@.contains_key(agent),
            settle_accounts_routed(
                settle_context(
                    old(self)@,
                    old(reputations)@,
                    bounty_id,
                    caller,
                    agent,
                    *old(agent_token_account),
                    *old(bounty_token_account),
                    usdc_mint,
                ),
            ),
            settle_accepted(
                settle_context(
                    old(self)@,
                    old(reputations)@,
                    bounty_id,
                    caller,
                    agent,
                    *old(agent_token_account),
                    *old(bounty_token_account),
                    usdc_mint,
                ),
            ) ==> {
                &&& old(bounty_token_account).amount >= old(self)@[bounty_id].reward
                &&& old(agent_token_account).amount + old(self)@[bounty_id].reward <= u64::MAX
            },
        ensures
            final(self).wf(),
            final(reputations).wf(),
            ({
                let ctx = settle_context(
                    old(self)@,
                    old(reputations)@,
                    bounty_id,
                    caller,
                    agent,
                    *old(agent_token_account),
                    *old(bounty_token_account),
                    usdc_mint,
                );
                let reward = old(self)@[bounty_id].reward;
                &&& (r is Ok <==> settle_accepted(ctx))
                &&& r is Ok ==> {
                    &&& final(self)@ == old(self)@.insert(bounty_id, settled_bounty(ctx.bounty))
                    &&& final(reputations)@ == old(reputations)@.insert(
                        agent,
                        credited_reputation(ctx.reputation, reward),
                    )
                    &&& *final(agent_token_account) == (TokenAccount {
                        amount: (old(agent_token_account).amount + reward) as u64,
                        ..*old(agent_token_account)
                    })
                    &&& *final(bounty_token_account) == (TokenAccount {
                        amount: (old(bounty_token_account).amount - reward) as u64,
                        ..*old(bounty_token_account)
                    })
                }
                &&& r is Err ==> {
                    &&& final(self)@ == old(self)@
                    &&& final(reputations)@ == old(reputations)@
                    &&& *final(agent_token_account) == *old(agent_token_account)
                    &&& *final(bounty_token_account) == *old(bounty_token_account)
                }
                &&& (r matches Err(e) ==> e == settle_rejection(ctx))
            }),
    {
        let bounty: Bounty = match self.bounties.get(&bounty_id) {
            Some(b) => *b,
            None => vstd::pervasive::unreached(),
        };
        let reputation = match reputations.get(agent) {
            Some(rep) => rep,
            None => vstd::pervasive::unreached(),
        };
        let mut ctx = SettleBounty {
            creator: caller,
            bounty,
            reputation,
            agent,
            agent_token_account: *agent_token_account,
            bounty_token_account: *bounty_token_account,
            usdc_mint,
            token_program: self.escrow,
        };
        let r = ctx.settle_bounty();
        if r.is_ok() {
            self.bounties.insert(bounty_id, ctx.bounty);
            reputations.store(ctx.reputation);
            *agent_token_account = ctx.agent_token_account;
            *bounty_token_account = ctx.bounty_token_account;
            proof {
                assert forall|id: u64| self@.contains_key(id) implies {
                    &&& (#[trigger] self@[id]).id == id
                    &&& bounty_wf(self@[id])
                } by {
                    if id != bounty_id {
                        assert(old(self)@.contains_key(id));
                    }
                }
            }
        }
        r
    }
}

} // verus!
