//! Bounty lifecycle core: attestation registration, solution submission and
//! settlement, together with the reputation and escrow bookkeeping they drive.
//!
//! A creator escrows a reward for a task; an agent registers an attestation
//! binding itself to a hash of its solution, submits that solution against the
//! bounty, and, once the creator settles, receives the escrowed reward while
//! its reputation record is credited. Every operation is all-or-nothing: a
//! failed precondition leaves every record untouched.

pub mod attest_solution;
pub mod errors;
pub mod escrow;
pub mod laws;
pub mod ledger;
pub mod registry;
pub mod reputation;
pub mod settle_bounty;
pub mod state;
pub mod submit_solution;
