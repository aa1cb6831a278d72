use vstd::prelude::*;
use crate::key::Key;

verus! {

/// Recorded when a vault is created.
#[derive(Clone, Copy, Debug)]
pub struct VaultCreated {
    pub vault: Key,
    pub funder: Key,
    pub token_mint: Key,
    pub max_amount: u64,
    pub expiry: Option<i64>,
}

/// Recorded when funds are deposited into a vault.
#[derive(Clone, Copy, Debug)]
pub struct VaultFunded {
    pub vault: Key,
    pub amount: u64,
    /// The vault's custody balance after the deposit.
    pub new_balance: u64,
}

/// Recorded when an authorization token is bound to a vault.
#[derive(Clone, Copy, Debug)]
pub struct ClawMinted {
    pub vault: Key,
    pub claw_mint: Key,
    pub recipient: Key,
}

/// Recorded when a spend is authorized.
#[derive(Clone, Debug)]
pub struct ClawSpent {
    pub vault: Key,
    pub spender: Key,
    pub recipient: Key,
    pub amount: u64,
    /// What remains of the ceiling after this spend.
    pub remaining: u64,
    pub memo: Option<String>,
}

/// Recorded when a vault is burned and its balance goes back to the funder.
#[derive(Clone, Copy, Debug)]
pub struct ClawBurned {
    pub vault: Key,
    pub funder: Key,
    pub recovered: u64,
    pub total_spent: u64,
}

} // verus!
