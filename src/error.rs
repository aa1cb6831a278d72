use vstd::prelude::*;

verus! {

/// Why an operation on a vault was refused. Every refusal leaves the vault as
/// it was and moves no funds.
#[derive(Clone, Copy, Debug, PartialEq, Eq, Structural)]
pub enum ClawError {
    /// The vault has been burned and takes no further operation.
    VaultInactive,
    /// An authorization token is already bound to the vault.
    AlreadyBound,
    /// The caller does not hold exactly one unit of the bound token.
    MustHoldClaw,
    /// The caller's token account is for another mint than the bound one.
    WrongClaw,
    /// The amount asked for is more than what remains of the ceiling.
    ExceedsLimit,
    /// The vault's expiry has been reached.
    ClawExpired,
    /// Only the funder may perform this action.
    NotFunder,
    /// Checked arithmetic would have wrapped.
    Overflow,
    /// The creation parameters break policy: a zero ceiling or a past expiry.
    InvalidConfig,
    /// The custody service did not carry out the transfer.
    TransferFailed,
}

impl ClawError {
    /// The message shown to a user for this error.
    pub fn message(&self) -> (r: &'static str) {
        match self {
            ClawError::VaultInactive => "Vault is not active",
            ClawError::AlreadyBound => "Claw NFT already minted for this vault",
            ClawError::MustHoldClaw => "Must hold the Claw NFT to spend",
            ClawError::WrongClaw => "Wrong Claw NFT for this vault",
            ClawError::ExceedsLimit => "Spending amount exceeds remaining limit",
            ClawError::ClawExpired => "Claw has expired",
            ClawError::NotFunder => "Only the funder can perform this action",
            ClawError::Overflow => "Arithmetic overflow",
            ClawError::InvalidConfig => "Invalid vault configuration",
            ClawError::TransferFailed => "Token transfer failed",
        }
    }
}

} // verus!
