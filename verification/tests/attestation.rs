use bountyforge::attest_solution::AttestSolution;
use bountyforge::errors::BountyForgeError;
use bountyforge::registry::AttestationRegistry;

#[test]
fn duplicate_attestation_rejected() {
    let mut registry = AttestationRegistry::new();
    let first = registry.attest(7, [5u8; 32], 11, 100, 254).unwrap();

    // Even with a different hash, agent and time, the identifier is taken.
    let r = registry.attest(7, [6u8; 32], 12, 200, 253);
    assert_eq!(r, Err(BountyForgeError::DuplicateAttestation));

    // The stored record is the first writer's, untouched.
    let stored = registry.get(7).unwrap();
    assert_eq!(stored, first);
    assert_eq!(stored.solution_hash, [5u8; 32]);
    assert_eq!(stored.agent, 11);
}

#[test]
fn attestations_with_distinct_ids_coexist() {
    let mut registry = AttestationRegistry::new();
    assert!(registry.attest(1, [5u8; 32], 11, 100, 254).is_ok());
    assert!(registry.attest(2, [5u8; 32], 11, 100, 254).is_ok());
    assert_eq!(registry.get(1).unwrap().solution_id, 1);
    assert_eq!(registry.get(2).unwrap().solution_id, 2);
    assert!(registry.get(3).is_none());
}

#[test]
fn attestation_record_fields() {
    let ctx = AttestSolution { agent: 77 };
    let a = ctx.attest_solution(9, [8u8; 32], 12345, 252);
    assert_eq!(a.solution_id, 9);
    assert_eq!(a.solution_hash, [8u8; 32]);
    assert_eq!(a.timestamp, 12345);
    assert_eq!(a.agent, 77);
    assert!(!a.verified);
    assert_eq!(a.bump, 252);
}
