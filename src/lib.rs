//! A capability-gated spending vault: a funder deposits an asset under a hard
//! spending ceiling and an optional expiry, and whoever holds the single bound
//! authorization token (the "claw") may spend up to what remains.
//!
//! The library holds the vault's state machine and every decision it makes.
//! Account storage, token transfers, the clock and event delivery are left to
//! the host, which hands the library plain values and carries out the
//! transfers that the library orders.

mod key;
mod error;
mod state;
mod events;
mod ops;
mod laws;

pub use key::Key;
pub use error::ClawError;
pub use state::ClawVault;
pub use events::{ClawBurned, ClawMinted, ClawSpent, VaultCreated, VaultFunded};
pub use ops::{
    bind_error, bound_to, burn_claw, burn_error, burned, create_vault, finish_transfer,
    fund_error, fund_vault, funded_balance, holds_claw, invalid_config, is_fresh_vault, mint_claw,
    recovered_by, spend, spend_error, spend_step, spent_by, vault_authority, BurnClaw,
    BurnOutcome, CreateVault, FundOutcome, FundVault, MintClaw, Spend, SpendOutcome,
    TransferAuthority, TransferOrder,
};
pub use laws::{
    bound_vault_never_rebinds, burn_is_funder_only, burn_is_single_use, competing_spends_one_wins,
    expired_vault_refuses_spend, fund_then_burn_returns_deposit, rebinding_is_already_bound,
    run_spends, spend_needs_exactly_one_claw, spends_accumulate, succeeded_total,
    unbound_vault_refuses_spend,
};
