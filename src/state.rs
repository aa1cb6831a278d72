use vstd::prelude::*;
use crate::key::Key;

verus! {

/// The durable record of one vault, kept per (funder, token mint).
#[derive(Clone, Copy, Debug)]
pub struct ClawVault {
    /// The account that created and funds the vault.
    pub funder: Key,
    /// The mint of the asset that the vault holds.
    pub token_mint: Key,
    /// The token account that holds the vault's funds.
    pub token_account: Key,
    /// The ceiling on the total ever spent.
    pub max_amount: u64,
    /// The total spent so far.
    pub spent_amount: u64,
    /// When set, spending is refused at or after this time.
    pub expiry: Option<i64>,
    /// The mint of the bound authorization token; all zeros until bound.
    pub claw_nft_mint: Key,
    /// The bump of the vault's derived address, with which it signs transfers.
    pub bump: u8,
    /// False once the vault has been burned.
    pub is_active: bool,
}

impl ClawVault {
    /// The vault's invariant: nothing beyond the ceiling has been spent.
    pub open spec fn wf(&self) -> bool {
        self.spent_amount <= self.max_amount
    }

    /// What remains of the ceiling.
    pub open spec fn spec_remaining(&self) -> int {
        self.max_amount - self.spent_amount
    }

    /// Whether an authorization token has been bound.
    pub open spec fn is_bound(&self) -> bool {
        !self.claw_nft_mint.spec_is_unset()
    }

    /// Whether spending is refused at time `now` for expiry.
    pub open spec fn expired_at(&self, now: i64) -> bool {
        match self.expiry {
            Some(e) => now >= e,
            None => false,
        }
    }

    /// What remains of the ceiling, computed from the two counters.
    pub fn remaining(&self) -> (r: Option<u64>)
        ensures
            self.wf() ==> r == Some((self.max_amount - self.spent_amount) as u64),
            !self.wf() ==> r is None,
    {
        self.max_amount.checked_sub(self.spent_amount)
    }

    /// Whether spending is refused at time `now` for expiry.
    pub fn is_expired_at(&self, now: i64) -> (r: bool)
        ensures
            r == self.expired_at(now),
    {
        match self.expiry {
            Some(e) => now >= e,
            None => false,
        }
    }

    /// Whether an authorization token has been bound.
    pub fn has_claw(&self) -> (r: bool)
        ensures
            r == self.is_bound(),
    {
        !self.claw_nft_mint.is_unset()
    }
}

} // verus!
