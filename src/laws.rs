//! Properties of the vault that hold across operations, proved over the
//! specifications that the operations' contracts are stated in.
use vstd::prelude::*;
use crate::error::ClawError;
use crate::ops::{
    bind_error, burn_error, burned, fund_error, funded_balance, holds_claw, is_fresh_vault,
    recovered_by, spend_error, spend_step, BurnClaw, CreateVault, FundVault, MintClaw, Spend,
};
use crate::state::ClawVault;

verus! {

/// The vault after a sequence of spend requests `(accounts, amount, now)`,
/// each applied to the result of the ones before it.
pub open spec fn run_spends(v: ClawVault, reqs: Seq<(Spend, u64, i64)>) -> ClawVault
    decreases reqs.len(),
{
    if reqs.len() == 0 {
        v
    } else {
        let (a, amount, now) = reqs.last();
        spend_step(run_spends(v, reqs.drop_last()), a, amount, now)
    }
}

/// The sum of the amounts of the requests in `reqs` that succeeded.
pub open spec fn succeeded_total(v: ClawVault, reqs: Seq<(Spend, u64, i64)>) -> int
    decreases reqs.len(),
{
    if reqs.len() == 0 {
        0
    } else {
        let (a, amount, now) = reqs.last();
        let before = run_spends(v, reqs.drop_last());
        succeeded_total(v, reqs.drop_last()) + if spend_error(before, a, amount, now) is None {
            amount as int
        } else {
            0
        }
    }
}

/// After any sequence of spend requests on a vault, the amount spent is what
/// was spent before plus the sum of the requests that succeeded, and it never
/// exceeds the ceiling.
pub proof fn spends_accumulate(v: ClawVault, reqs: Seq<(Spend, u64, i64)>)
    requires
        v.wf(),
    ensures
        run_spends(v, reqs).spent_amount == v.spent_amount + succeeded_total(v, reqs),
        run_spends(v, reqs).spent_amount <= run_spends(v, reqs).max_amount,
        run_spends(v, reqs).max_amount == v.max_amount,
    decreases reqs.len(),
{
    if reqs.len() > 0 {
        spends_accumulate(v, reqs.drop_last());
    }
}

/// A vault that has a token bound never takes another: every binding is
/// refused, so the bound mint stays as it is.
pub proof fn bound_vault_never_rebinds(v: ClawVault, a: MintClaw)
    requires
        v.is_bound(),
    ensures
        bind_error(v, a) is Some,
{
}

/// On an active vault with a token bound, a binding by the funder is refused
/// with `AlreadyBound`.
pub proof fn rebinding_is_already_bound(v: ClawVault, a: MintClaw)
    requires
        v.is_bound(),
        v.is_active,
        a.funder@ == v.funder@,
    ensures
        bind_error(v, a) == Some(ClawError::AlreadyBound),
{
}

/// On an active vault with no token bound, every spend is refused with
/// `MustHoldClaw`.
pub proof fn unbound_vault_refuses_spend(v: ClawVault, a: Spend, amount: u64, now: i64)
    requires
        v.is_active,
        !v.is_bound(),
    ensures
        spend_error(v, a, amount, now) == Some(ClawError::MustHoldClaw),
{
}

/// A holder of the bound token of an active vault is refused with
/// `ClawExpired` at or after the expiry, whatever remains of the ceiling.
pub proof fn expired_vault_refuses_spend(v: ClawVault, a: Spend, amount: u64, now: i64)
    requires
        v.is_active,
        holds_claw(v, a),
        v.expiry matches Some(e) && now >= e,
    ensures
        spend_error(v, a, amount, now) == Some(ClawError::ClawExpired),
{
}

/// On an active vault, a signer whose account of the bound mint holds other
/// than exactly one unit is refused with `MustHoldClaw`.
pub proof fn spend_needs_exactly_one_claw(v: ClawVault, a: Spend, amount: u64, now: i64)
    requires
        v.is_active,
        v.is_bound(),
        a.claw_mint@ == v.claw_nft_mint@,
        a.claw_amount != 1,
    ensures
        spend_error(v, a, amount, now) == Some(ClawError::MustHoldClaw),
{
}

/// Only the funder may burn: anyone else is refused with `NotFunder`.
pub proof fn burn_is_funder_only(v: ClawVault, a: BurnClaw)
    requires
        a.funder@ != v.funder@,
    ensures
        burn_error(v, a) == Some(ClawError::NotFunder),
{
}

/// A vault burns once: burning it again, even by the funder, is refused with
/// `VaultInactive`.
pub proof fn burn_is_single_use(v: ClawVault, a: BurnClaw)
    requires
        a.funder@ == v.funder@,
    ensures
        burn_error(burned(v), a) == Some(ClawError::VaultInactive),
{
}

/// Creating a vault, depositing `amount` into its empty custody account and
/// burning it at once gives the funder back exactly `amount`, leaves the
/// vault inactive and nothing spent.
pub proof fn fund_then_burn_returns_deposit(
    v: ClawVault,
    c: CreateVault,
    max_amount: u64,
    expiry: Option<i64>,
    vault_bump: u8,
    f: FundVault,
    amount: u64,
    b: BurnClaw,
)
    requires
        is_fresh_vault(v, c, max_amount, expiry, vault_bump),
        f.funder@ == c.funder@,
        f.vault_token_balance == 0,
        b.funder@ == c.funder@,
        b.vault_token_balance == funded_balance(f, amount),
    ensures
        fund_error(v, f, amount) is None,
        burn_error(v, b) is None,
        recovered_by(b) == amount,
        !burned(v).is_active,
        burned(v).spent_amount == 0,
{
}

/// Two spend requests that each fit in what remains but together exceed it,
/// however they are ordered: the first one served succeeds and the second is
/// refused with `ExceedsLimit`.
pub proof fn competing_spends_one_wins(v: ClawVault, a1: Spend, x1: u64, a2: Spend, x2: u64, now: i64)
    requires
        v.wf(),
        v.is_active,
        holds_claw(v, a1),
        holds_claw(v, a2),
        !v.expired_at(now),
        x1 <= v.spec_remaining(),
        x2 <= v.spec_remaining(),
        x1 + x2 > v.spec_remaining(),
    ensures
        spend_error(v, a1, x1, now) is None,
        spend_error(spend_step(v, a1, x1, now), a2, x2, now) == Some(ClawError::ExceedsLimit),
{
}

} // verus!
