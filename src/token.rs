use vstd::prelude::*;
use crate::address::{Address, Pubkey};

verus! {

/// A balance of one mint held at one identity in the token ledger.
#[derive(Clone, Copy, Debug, PartialEq, Eq, Structural)]
pub struct TokenAccount {
    pub address: Address,
    pub mint: Pubkey,
    /// The identity entitled to move the balance.
    pub owner: Pubkey,
    pub amount: u64,
}

/// Whether the ledger accepts moving `amount` from `from` to `to`.
pub open spec fn can_transfer(from: TokenAccount, to: TokenAccount, amount: u64) -> bool {
    &&& from.mint == to.mint
    &&& from.amount >= amount
    &&& to.amount + amount <= u64::MAX
}

pub open spec fn debited(a: TokenAccount, amount: u64) -> TokenAccount {
    TokenAccount { amount: (a.amount - amount) as u64, ..a }
}

pub open spec fn credited(a: TokenAccount, amount: u64) -> TokenAccount {
    TokenAccount { amount: (a.amount + amount) as u64, ..a }
}

impl TokenAccount {
    pub fn new(address: Address, mint: Pubkey, owner: Pubkey, amount: u64) -> (r: TokenAccount)
        ensures
            r == (TokenAccount { address, mint, owner, amount }),
    {
        TokenAccount { address, mint, owner, amount }
    }
}

pub fn transfer_allowed(from: &TokenAccount, to: &TokenAccount, amount: u64) -> (r: bool)
    ensures
        r == can_transfer(*from, *to, amount),
{
    from.mint == to.mint && from.amount >= amount && to.amount <= u64::MAX - amount
}

/// Moves `amount` tokens between two accounts of the same mint; on failure
/// neither account changes.
pub fn transfer(from: &mut TokenAccount, to: &mut TokenAccount, amount: u64) -> (r: bool)
    ensures
        r == can_transfer(*old(from), *old(to), amount),
        r ==> *final(from) == debited(*old(from), amount) && *final(to) == credited(
            *old(to),
            amount,
        ),
        !r ==> *final(from) == *old(from) && *final(to) == *old(to),
{
    if !transfer_allowed(from, to, amount) {
        return false;
    }
    from.amount = from.amount - amount;
    to.amount = to.amount + amount;
    true
}

} // verus!
