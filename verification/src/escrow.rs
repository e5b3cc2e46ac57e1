use vstd::prelude::*;

verus! {

/// A value-holding account of the external token-custody service: an owner
/// identity, the asset kind it holds, and its balance.
#[derive(Clone, Copy, Debug, PartialEq, Eq)]
pub struct TokenAccount {
    /// Identity the account belongs to. A bounty's escrow account is owned
    /// by the bounty's own derived authority, addressed by the bounty id.
    pub owner: u64,
    /// Asset kind the account holds.
    pub mint: u64,
    /// Current balance.
    pub amount: u64,
}

/// Capability standing for the external token-custody service: the sole
/// authority through which escrowed value moves. Settlement invokes it
/// under the bounty's derived authority, never under a human key.
#[derive(Clone, Copy, Debug)]
pub struct EscrowTransferService {}

impl EscrowTransferService {
    /// Moves exactly `amount` units from `from` to `to`, atomically: the
    /// caller has already established that the source is funded and the
    /// destination cannot overflow, so the full amount always moves.
    pub fn transfer(&self, from: &mut TokenAccount, to: &mut TokenAccount, amount: u64)
        requires
            old(from).amount >= amount,
            old(to).amount + amount <= u64::MAX,
        ensures
            *final(from) == (TokenAccount { amount: (old(from).amount - amount) as u64, ..*old(from) }),
            *final(to) == (TokenAccount { amount: (old(to).amount + amount) as u64, ..*old(to) }),
    {
        from.amount = from.amount - amount;
        to.amount = to.amount + amount;
    }
}

} // verus!
