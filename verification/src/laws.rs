use crate::errors::BountyForgeError;
use crate::registry::attest_accepted;
use crate::settle_bounty::{
    credited_reputation, settle_accepted, settle_rejection, settled_bounty, SettleBounty,
};
use crate::state::{bounty_wf, Attestation, Reputation};
use crate::submit_solution::{
    scored_reputation, submit_accepted, submit_rejection, submitted_bounty, SubmitSolution,
};
use vstd::prelude::*;

verus! {

/// A task identifier holds at most one attestation, ever: once a record
/// sits at `task_id`, no further attestation is accepted there — whatever
/// hash or agent it would carry.
pub proof fn lemma_attestation_unique(m: Map<u64, Attestation>, task_id: u64, a: Attestation)
    ensures
        !attest_accepted(m.insert(task_id, a), task_id),
{
}

/// Attestations are immutable: the one way the registry grows — an
/// accepted attestation at a fresh identifier — leaves every existing
/// record exactly as it was.
pub proof fn lemma_attestation_immutable(
    m: Map<u64, Attestation>,
    task_id: u64,
    a: Attestation,
    t: u64,
)
    requires
        attest_accepted(m, task_id),
        m.contains_key(t),
    ensures
        m.insert(task_id, a).contains_key(t),
        m.insert(task_id, a)[t] == m[t],
{
}

/// Acceptance of a submission, spelled out: away from score overflow, a
/// submission of `h` is accepted exactly when the bounty is open with no
/// recorded hash, the attestation belongs to the caller, and it attests
/// exactly `h`.
pub proof fn lemma_submit_acceptance(s: SubmitSolution, h: [u8; 32])
    requires
        s.reputation matches Some(r) ==> r.score < u64::MAX,
    ensures
        submit_accepted(s, h) <==> {
            &&& s.bounty.status is Open
            &&& s.bounty.solution_hash is None
            &&& s.attestation.agent == s.agent
            &&& s.attestation.solution_hash == h
        },
{
}

/// A successful submission raises the caller's score to exactly one more
/// than before, or to 1 where no record existed yet.
pub proof fn lemma_submission_scores_once(rep: Option<Reputation>, agent: u64, bump: u8)
    requires
        rep matches Some(r) ==> r.score < u64::MAX,
    ensures
        scored_reputation(rep, agent, bump).score == match rep {
            Some(r) => r.score + 1,
            None => 1,
        },
        scored_reputation(rep, agent, bump).agent == match rep {
            Some(r) => r.agent,
            None => agent,
        },
{
}

/// Acceptance of a settlement, spelled out: on a well-formed bounty, with
/// the reputation record owned by the payee and away from counter
/// overflow, a settlement is accepted exactly when the bounty is
/// submitted and the caller is its creator.
pub proof fn lemma_settle_acceptance(s: SettleBounty)
    requires
        bounty_wf(s.bounty),
        s.reputation.agent == s.agent,
        s.reputation.successful_bounties < u64::MAX,
        s.reputation.total_earned + s.bounty.reward <= u64::MAX,
    ensures
        settle_accepted(s) <==> (s.bounty.status is Submitted && s.creator == s.bounty.creator),
{
}

/// A submission cannot be replayed: against a bounty that has already
/// been submitted to, every further submission — whatever its hash,
/// caller, attestation or reputation record — is rejected as
/// `BountyNotOpen`.
pub proof fn lemma_submit_not_replayable(s: SubmitSolution, h: [u8; 32], h2: [u8; 32])
    requires
        s.bounty == submitted_bounty(s.bounty, h) || s.bounty == settled_bounty(s.bounty),
    ensures
        !submit_accepted(s, h2),
        submit_rejection(s, h2) == BountyForgeError::BountyNotOpen,
{
}

/// A settlement cannot be replayed: against a bounty that has already
/// been settled, every further settlement — whoever calls it — is
/// rejected as `BountyNotSubmitted`.
pub proof fn lemma_settle_not_replayable(s: SettleBounty)
    requires
        s.bounty == settled_bounty(s.bounty),
    ensures
        !settle_accepted(s),
        settle_rejection(s) == BountyForgeError::BountyNotSubmitted,
{
}

/// Submission preserves well-formedness and moves the status strictly
/// forward: an accepted submission turns an open bounty into a submitted
/// one carrying exactly the submitted hash, touching nothing else.
pub proof fn lemma_submit_transition(s: SubmitSolution, h: [u8; 32])
    requires
        submit_accepted(s, h),
    ensures
        bounty_wf(submitted_bounty(s.bounty, h)),
        submitted_bounty(s.bounty, h).status is Submitted,
        submitted_bounty(s.bounty, h).solution_hash == Some(h),
        submitted_bounty(s.bounty, h).id == s.bounty.id,
        submitted_bounty(s.bounty, h).creator == s.bounty.creator,
        submitted_bounty(s.bounty, h).reward == s.bounty.reward,
{
}

/// Settlement preserves well-formedness and is terminal: an accepted
/// settlement turns a submitted bounty into a settled one, keeping the
/// solution hash set exactly as the submission left it.
pub proof fn lemma_settle_transition(s: SettleBounty)
    requires
        settle_accepted(s),
    ensures
        bounty_wf(settled_bounty(s.bounty)),
        settled_bounty(s.bounty).status is Settled,
        settled_bounty(s.bounty).solution_hash == s.bounty.solution_hash,
        settled_bounty(s.bounty).id == s.bounty.id,
        settled_bounty(s.bounty).creator == s.bounty.creator,
        settled_bounty(s.bounty).reward == s.bounty.reward,
{
}

/// Reputation counters are monotone: neither a submission nor a
/// settlement ever lowers the score, the success count or the cumulative
/// earnings, and neither touches another agent's identity.
pub proof fn lemma_reputation_monotone(r: Reputation, agent: u64, bump: u8, reward: u64)
    requires
        r.score < u64::MAX,
        r.successful_bounties < u64::MAX,
        r.total_earned + reward <= u64::MAX,
    ensures
        scored_reputation(Some(r), agent, bump).score >= r.score,
        scored_reputation(Some(r), agent, bump).successful_bounties == r.successful_bounties,
        scored_reputation(Some(r), agent, bump).total_earned == r.total_earned,
        scored_reputation(Some(r), agent, bump).agent == r.agent,
        credited_reputation(r, reward).score == r.score,
        credited_reputation(r, reward).successful_bounties
            >= r.successful_bounties,
        credited_reputation(r, reward).total_earned >= r.total_earned,
        credited_reputation(r, reward).agent == r.agent,
{
}

/// A score at its representable maximum blocks submission: every
/// otherwise-acceptable submission is rejected as
/// `ReputationScoreOverflow`, and the score stays where it was.
pub proof fn lemma_score_overflow_rejected(s: SubmitSolution, h: [u8; 32])
    requires
        s.bounty.status is Open,
        s.bounty.solution_hash is None,
        s.attestation.agent == s.agent,
        s.attestation.solution_hash == h,
        s.reputation matches Some(r) && r.score == u64::MAX,
    ensures
        !submit_accepted(s, h),
        submit_rejection(s, h) == BountyForgeError::ReputationScoreOverflow,
{
}

} // verus!
