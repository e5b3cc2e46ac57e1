use vstd::prelude::*;

verus! {

/// Every way an operation of the bounty core can fail.
///
/// Each failure reflects a structural precondition violation; none is
/// transient, and any failing check aborts the whole operation with no
/// partial state change.
#[derive(Clone, Copy, Debug, PartialEq, Eq, Structural)]
pub enum BountyForgeError {
    /// `submit` was invoked on a bounty whose status is not `Open`.
    BountyNotOpen,
    /// A solution hash is already recorded where none was expected.
    BountyAlreadySubmitted,
    /// `settle` was invoked on a bounty whose status is not `Submitted`.
    BountyNotSubmitted,
    /// The settlement caller is not the bounty's creator.
    UnauthorizedSettlement,
    /// The referenced attestation is not owned by the submitting agent.
    AttestationOwnerMismatch,
    /// The reputation record is not owned by the intended payee agent.
    ReputationOwnerMismatch,
    /// The submitted hash disagrees with the previously attested hash.
    SolutionHashMismatch,
    /// An attestation record already sits at the derived address.
    DuplicateAttestation,
    /// Incrementing the reputation score would exceed its representable range.
    ReputationScoreOverflow,
    /// A settlement-time reputation counter increment would overflow.
    ReputationOverflow,
}

} // verus!
