use vstd::prelude::*;
use crate::error::ClawError;
use crate::events::{ClawBurned, ClawMinted, ClawSpent, VaultCreated, VaultFunded};
use crate::key::Key;
use crate::state::ClawVault;

verus! {

/// Who authorizes a transfer that the library orders.
#[derive(Clone, Copy, Debug)]
pub enum TransferAuthority {
    /// The funder signs for a deposit from their own token account.
    Funder { signer: Key },
    /// The vault signs for itself through its derived address, whose seeds
    /// are the funder, the token mint and the bump.
    Vault { vault: Key, funder: Key, token_mint: Key, bump: u8 },
}

/// A transfer of `amount` tokens that the host carries out for the library.
#[derive(Clone, Copy, Debug)]
pub struct TransferOrder {
    pub from: Key,
    pub to: Key,
    pub amount: u64,
    pub authority: TransferAuthority,
}

/// The authority with which a vault signs for its own custody account.
pub open spec fn vault_authority(address: Key, v: ClawVault) -> TransferAuthority {
    TransferAuthority::Vault {
        vault: address,
        funder: v.funder,
        token_mint: v.token_mint,
        bump: v.bump,
    }
}

fn sign_as_vault(address: Key, v: &ClawVault) -> (r: TransferAuthority)
    ensures
        r == vault_authority(address, *v),
{
    TransferAuthority::Vault {
        vault: address,
        funder: v.funder,
        token_mint: v.token_mint,
        bump: v.bump,
    }
}

// ---------------------------------------------------------------- spend

/// What a spend request reads: the signer, the signer's token account for
/// the authorization token, and where the funds go.
#[derive(Clone, Copy, Debug)]
pub struct Spend {
    /// The signer asking to spend.
    pub spender: Key,
    /// The vault's address.
    pub vault: Key,
    /// The owner of the token account offered as proof of holding the claw.
    pub claw_owner: Key,
    /// The mint of that token account.
    pub claw_mint: Key,
    /// How many units that token account holds.
    pub claw_amount: u64,
    /// The token account that receives the funds.
    pub recipient_token_account: Key,
}

/// Whether the signer of `a` holds exactly one unit of the token bound to `v`.
pub open spec fn holds_claw(v: ClawVault, a: Spend) -> bool {
    &&& v.is_bound()
    &&& a.claw_mint@ == v.claw_nft_mint@
    &&& a.claw_owner@ == a.spender@
    &&& a.claw_amount == 1
}

/// The first check that refuses a spend of `amount` at time `now`, if any.
pub open spec fn spend_error(v: ClawVault, a: Spend, amount: u64, now: i64) -> Option<ClawError> {
    if !v.is_active {
        Some(ClawError::VaultInactive)
    } else if !v.is_bound() {
        Some(ClawError::MustHoldClaw)
    } else if a.claw_mint@ != v.claw_nft_mint@ {
        Some(ClawError::WrongClaw)
    } else if a.claw_owner@ != a.spender@ || a.claw_amount != 1 {
        Some(ClawError::MustHoldClaw)
    } else if v.expired_at(now) {
        Some(ClawError::ClawExpired)
    } else if v.spent_amount > v.max_amount {
        Some(ClawError::Overflow)
    } else if amount > v.max_amount - v.spent_amount {
        Some(ClawError::ExceedsLimit)
    } else {
        None
    }
}

/// The vault after `amount` more has been spent from it.
pub open spec fn spent_by(v: ClawVault, amount: u64) -> ClawVault {
    ClawVault { spent_amount: (v.spent_amount + amount) as u64, ..v }
}

/// The vault after a spend request, whether it succeeded or not.
pub open spec fn spend_step(v: ClawVault, a: Spend, amount: u64, now: i64) -> ClawVault {
    if spend_error(v, a, amount, now) is Some {
        v
    } else {
        spent_by(v, amount)
    }
}

/// What an authorized spend hands back: the transfer to carry out and the
/// record of the spend.
#[derive(Clone, Debug)]
pub struct SpendOutcome {
    pub transfer: TransferOrder,
    pub event: ClawSpent,
}

/// Authorizes a spend of `amount` from `vault` at time `now` and counts it.
///
/// The checks run in a fixed order: the vault is active; a token is bound;
/// the offered token account is of the bound mint; the signer owns it and it
/// holds exactly one unit; the expiry is not reached; the amount fits in what
/// remains. On success `spent_amount` grows by `amount` and the transfer of
/// `amount` from custody to the recipient is ordered, signed by the vault. On
/// refusal the vault is left as it was.
pub fn spend(vault: &mut ClawVault, accounts: &Spend, amount: u64, memo: Option<String>, now: i64) -> (r: Result<SpendOutcome, ClawError>)
    ensures
        match spend_error(*old(vault), *accounts, amount, now) {
            Some(e) => r == Err::<SpendOutcome, ClawError>(e) && *final(vault) == *old(vault),
            None => r is Ok,
        },
        *final(vault) == spend_step(*old(vault), *accounts, amount, now),
        r is Ok ==> ({
            let o = r->Ok_0;
            &&& final(vault).wf()
            &&& o.transfer == (TransferOrder {
                from: old(vault).token_account,
                to: accounts.recipient_token_account,
                amount,
                authority: vault_authority(accounts.vault, *old(vault)),
            })
            &&& o.event.vault == accounts.vault
            &&& o.event.spender == accounts.spender
            &&& o.event.recipient == accounts.recipient_token_account
            &&& o.event.amount == amount
            &&& o.event.remaining == final(vault).max_amount - final(vault).spent_amount
            &&& o.event.memo == memo
        }),
{
    if !vault.is_active {
        return Err(ClawError::VaultInactive);
    }
    if !vault.has_claw() {
        return Err(ClawError::MustHoldClaw);
    }
    if !accounts.claw_mint.same(&vault.claw_nft_mint) {
        return Err(ClawError::WrongClaw);
    }
    if !accounts.claw_owner.same(&accounts.spender) || accounts.claw_amount != 1 {
        return Err(ClawError::MustHoldClaw);
    }
    if vault.is_expired_at(now) {
        return Err(ClawError::ClawExpired);
    }
    let remaining = match vault.remaining() {
        Some(x) => x,
        None => return Err(ClawError::Overflow),
    };
    if amount > remaining {
        return Err(ClawError::ExceedsLimit);
    }
    let spent = match vault.spent_amount.checked_add(amount) {
        Some(x) => x,
        None => return Err(ClawError::Overflow),
    };
    let transfer = TransferOrder {
        from: vault.token_account,
        to: accounts.recipient_token_account,
        amount,
        authority: sign_as_vault(accounts.vault, vault),
    };
    vault.spent_amount = spent;
    let event = ClawSpent {
        vault: accounts.vault,
        spender: accounts.spender,
        recipient: accounts.recipient_token_account,
        amount,
        remaining: vault.max_amount - vault.spent_amount,
        memo,
    };
    Ok(SpendOutcome { transfer, event })
}

// ---------------------------------------------------------------- burn

/// What a burn reads: the signer, where the funds go back to, and the
/// vault's present custody balance.
#[derive(Clone, Copy, Debug)]
pub struct BurnClaw {
    /// The signer asking to burn.
    pub funder: Key,
    /// The vault's address.
    pub vault: Key,
    /// The funder's token account that receives what is left.
    pub funder_token_account: Key,
    /// The balance of the vault's custody account.
    pub vault_token_balance: u64,
}

/// The first check that refuses a burn, if any.
pub open spec fn burn_error(v: ClawVault, a: BurnClaw) -> Option<ClawError> {
    if a.funder@ != v.funder@ {
        Some(ClawError::NotFunder)
    } else if !v.is_active {
        Some(ClawError::VaultInactive)
    } else {
        None
    }
}

/// What a burn gives back to the funder: the whole custody balance.
pub open spec fn recovered_by(a: BurnClaw) -> u64 {
    a.vault_token_balance
}

/// The vault after it has been burned.
pub open spec fn burned(v: ClawVault) -> ClawVault {
    ClawVault { is_active: false, ..v }
}

/// What a burn hands back: the amount recovered, the transfer that returns
/// it (none when the custody account is empty) and the record of the burn.
#[derive(Clone, Copy, Debug)]
pub struct BurnOutcome {
    pub recovered: u64,
    pub transfer: Option<TransferOrder>,
    pub event: ClawBurned,
}

/// Deactivates `vault` for good and orders its whole custody balance back to
/// the funder, whatever has been spent. Only the funder may burn, and only
/// an active vault: a second burn is refused with `VaultInactive`.
pub fn burn_claw(vault: &mut ClawVault, accounts: &BurnClaw) -> (r: Result<BurnOutcome, ClawError>)
    ensures
        match burn_error(*old(vault), *accounts) {
            Some(e) => r == Err::<BurnOutcome, ClawError>(e) && *final(vault) == *old(vault),
            None => r is Ok && *final(vault) == burned(*old(vault)),
        },
        r is Ok ==> ({
            let o = r->Ok_0;
            &&& o.recovered == recovered_by(*accounts)
            &&& o.transfer == if accounts.vault_token_balance > 0 {
                Some(TransferOrder {
                    from: old(vault).token_account,
                    to: accounts.funder_token_account,
                    amount: accounts.vault_token_balance,
                    authority: vault_authority(accounts.vault, *old(vault)),
                })
            } else {
                None::<TransferOrder>
            }
            &&& o.event == (ClawBurned {
                vault: accounts.vault,
                funder: old(vault).funder,
                recovered: accounts.vault_token_balance,
                total_spent: old(vault).spent_amount,
            })
        }),
{
    if !accounts.funder.same(&vault.funder) {
        return Err(ClawError::NotFunder);
    }
    if !vault.is_active {
        return Err(ClawError::VaultInactive);
    }
    let remaining = accounts.vault_token_balance;
    let transfer = if remaining > 0 {
        Some(TransferOrder {
            from: vault.token_account,
            to: accounts.funder_token_account,
            amount: remaining,
            authority: sign_as_vault(accounts.vault, vault),
        })
    } else {
        None
    };
    vault.is_active = false;
    let event = ClawBurned {
        vault: accounts.vault,
        funder: vault.funder,
        recovered: remaining,
        total_spent: vault.spent_amount,
    };
    Ok(BurnOutcome { recovered: remaining, transfer, event })
}

// ---------------------------------------------------------------- create

/// What creation reads: the funder, the addresses of the new vault and of
/// its custody account, and the mint of the asset it holds.
#[derive(Clone, Copy, Debug)]
pub struct CreateVault {
    pub funder: Key,
    pub vault: Key,
    pub token_mint: Key,
    pub vault_token_account: Key,
}

/// Whether creation parameters break policy at time `now`: a zero ceiling,
/// or an expiry already in the past.
pub open spec fn invalid_config(max_amount: u64, expiry: Option<i64>, now: i64) -> bool {
    max_amount == 0 || (expiry matches Some(e) && e < now)
}

/// Whether `v` is the record of a freshly created vault: active, nothing
/// spent, no token bound.
pub open spec fn is_fresh_vault(v: ClawVault, a: CreateVault, max_amount: u64, expiry: Option<i64>, vault_bump: u8) -> bool {
    &&& v.funder == a.funder
    &&& v.token_mint == a.token_mint
    &&& v.token_account == a.vault_token_account
    &&& v.max_amount == max_amount
    &&& v.spent_amount == 0
    &&& v.expiry == expiry
    &&& v.claw_nft_mint.spec_is_unset()
    &&& v.bump == vault_bump
    &&& v.is_active
}

/// Creates a vault with ceiling `max_amount` and optional `expiry`, active,
/// with nothing spent and no token bound. Refused with `InvalidConfig` for a
/// zero ceiling or an expiry before `now`.
pub fn create_vault(accounts: &CreateVault, max_amount: u64, expiry: Option<i64>, vault_bump: u8, now: i64) -> (r: Result<(ClawVault, VaultCreated), ClawError>)
    ensures
        invalid_config(max_amount, expiry, now) ==> r == Err::<(ClawVault, VaultCreated), ClawError>(ClawError::InvalidConfig),
        !invalid_config(max_amount, expiry, now) ==> r is Ok,
        r is Ok ==> ({
            let (v, e) = r->Ok_0;
            &&& is_fresh_vault(v, *accounts, max_amount, expiry, vault_bump)
            &&& v.wf()
            &&& !v.is_bound()
            &&& e == (VaultCreated {
                vault: accounts.vault,
                funder: accounts.funder,
                token_mint: accounts.token_mint,
                max_amount,
                expiry,
            })
        }),
{
    if max_amount == 0 {
        return Err(ClawError::InvalidConfig);
    }
    if let Some(e) = expiry {
        if e < now {
            return Err(ClawError::InvalidConfig);
        }
    }
    let vault = ClawVault {
        funder: accounts.funder,
        token_mint: accounts.token_mint,
        token_account: accounts.vault_token_account,
        max_amount,
        spent_amount: 0,
        expiry,
        claw_nft_mint: Key::unset(),
        bump: vault_bump,
        is_active: true,
    };
    let event = VaultCreated {
        vault: accounts.vault,
        funder: vault.funder,
        token_mint: vault.token_mint,
        max_amount,
        expiry,
    };
    Ok((vault, event))
}

// ---------------------------------------------------------------- fund

/// What a deposit reads: the signer, the vault's address, the funder's token
/// account and the vault's present custody balance.
#[derive(Clone, Copy, Debug)]
pub struct FundVault {
    /// The signer asking to deposit.
    pub funder: Key,
    /// The vault's address.
    pub vault: Key,
    /// The funder's token account that the deposit comes from.
    pub funder_token_account: Key,
    /// The balance of the vault's custody account before the deposit.
    pub vault_token_balance: u64,
}

/// The custody balance after a deposit of `amount`.
pub open spec fn funded_balance(a: FundVault, amount: u64) -> int {
    a.vault_token_balance + amount
}

/// The first check that refuses a deposit of `amount`, if any.
pub open spec fn fund_error(v: ClawVault, a: FundVault, amount: u64) -> Option<ClawError> {
    if a.funder@ != v.funder@ {
        Some(ClawError::NotFunder)
    } else if !v.is_active {
        Some(ClawError::VaultInactive)
    } else if funded_balance(a, amount) > u64::MAX {
        Some(ClawError::Overflow)
    } else {
        None
    }
}

/// What an accepted deposit hands back: the transfer into custody, signed by
/// the funder, and the record of the deposit with the new balance.
#[derive(Clone, Copy, Debug)]
pub struct FundOutcome {
    pub transfer: TransferOrder,
    pub event: VaultFunded,
}

/// Accepts a deposit of `amount` into `vault` from its funder. The vault's
/// counters are not touched: only the custody balance grows, by the ordered
/// transfer.
pub fn fund_vault(vault: &ClawVault, accounts: &FundVault, amount: u64) -> (r: Result<FundOutcome, ClawError>)
    ensures
        match fund_error(*vault, *accounts, amount) {
            Some(e) => r == Err::<FundOutcome, ClawError>(e),
            None => r == Ok::<FundOutcome, ClawError>(FundOutcome {
                transfer: TransferOrder {
                    from: accounts.funder_token_account,
                    to: vault.token_account,
                    amount,
                    authority: TransferAuthority::Funder { signer: accounts.funder },
                },
                event: VaultFunded {
                    vault: accounts.vault,
                    amount,
                    new_balance: funded_balance(*accounts, amount) as u64,
                },
            }),
        },
{
    if !accounts.funder.same(&vault.funder) {
        return Err(ClawError::NotFunder);
    }
    if !vault.is_active {
        return Err(ClawError::VaultInactive);
    }
    let new_balance = match accounts.vault_token_balance.checked_add(amount) {
        Some(x) => x,
        None => return Err(ClawError::Overflow),
    };
    let transfer = TransferOrder {
        from: accounts.funder_token_account,
        to: vault.token_account,
        amount,
        authority: TransferAuthority::Funder { signer: accounts.funder },
    };
    let event = VaultFunded { vault: accounts.vault, amount, new_balance };
    Ok(FundOutcome { transfer, event })
}

// ---------------------------------------------------------------- bind

/// What binding reads: the signer, the vault's address, the mint of the
/// authorization token and who receives it.
#[derive(Clone, Copy, Debug)]
pub struct MintClaw {
    /// The signer asking to bind.
    pub funder: Key,
    /// The vault's address.
    pub vault: Key,
    /// The mint of the authorization token.
    pub claw_mint: Key,
    /// Who receives the authorization token.
    pub recipient: Key,
}

/// The first check that refuses a binding, if any.
pub open spec fn bind_error(v: ClawVault, a: MintClaw) -> Option<ClawError> {
    if a.funder@ != v.funder@ {
        Some(ClawError::NotFunder)
    } else if !v.is_active {
        Some(ClawError::VaultInactive)
    } else if v.is_bound() {
        Some(ClawError::AlreadyBound)
    } else {
        None
    }
}

/// The vault with `claw_mint` bound as its authorization token.
pub open spec fn bound_to(v: ClawVault, claw_mint: Key) -> ClawVault {
    ClawVault { claw_nft_mint: claw_mint, ..v }
}

/// Binds the authorization token `accounts.claw_mint` to `vault`, once. The
/// mint must be a real address, not the all-zero sentinel: its uniqueness
/// and the issuance of the token are up to the token's issuer.
pub fn mint_claw(vault: &mut ClawVault, accounts: &MintClaw) -> (r: Result<ClawMinted, ClawError>)
    requires
        !accounts.claw_mint.spec_is_unset(),
    ensures
        match bind_error(*old(vault), *accounts) {
            Some(e) => r == Err::<ClawMinted, ClawError>(e) && *final(vault) == *old(vault),
            None => {
                &&& *final(vault) == bound_to(*old(vault), accounts.claw_mint)
                &&& r == Ok::<ClawMinted, ClawError>(ClawMinted {
                    vault: accounts.vault,
                    claw_mint: accounts.claw_mint,
                    recipient: accounts.recipient,
                })
            },
        },
{
    if !accounts.funder.same(&vault.funder) {
        return Err(ClawError::NotFunder);
    }
    if !vault.is_active {
        return Err(ClawError::VaultInactive);
    }
    if vault.has_claw() {
        return Err(ClawError::AlreadyBound);
    }
    vault.claw_nft_mint = accounts.claw_mint;
    Ok(ClawMinted {
        vault: accounts.vault,
        claw_mint: vault.claw_nft_mint,
        recipient: accounts.recipient,
    })
}

// ---------------------------------------------------------------- transfers

/// Settles an operation once the host has tried its transfer. A vault update
/// commits only together with the transfer: when `transferred` is false the
/// vault goes back to `prior`, its state before the operation, and the
/// operation fails with `TransferFailed`.
pub fn finish_transfer(vault: &mut ClawVault, prior: &ClawVault, transferred: bool) -> (r: Result<(), ClawError>)
    ensures
        transferred ==> r is Ok && *final(vault) == *old(vault),
        !transferred ==> r == Err::<(), ClawError>(ClawError::TransferFailed) && *final(vault) == *prior,
{
    if transferred {
        Ok(())
    } else {
        *vault = *prior;
        Err(ClawError::TransferFailed)
    }
}

} // verus!
