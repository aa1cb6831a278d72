use claw::{
    burn_claw, create_vault, finish_transfer, fund_vault, mint_claw, spend, BurnClaw, ClawError,
    ClawVault, CreateVault, FundVault, Key, MintClaw, Spend, TransferAuthority,
};

fn key(b: u8) -> Key {
    Key::new([b; 32])
}

const NOW: i64 = 1_000;

fn funder() -> Key {
    key(1)
}
fn vault_addr() -> Key {
    key(2)
}
fn mint() -> Key {
    key(3)
}
fn custody() -> Key {
    key(4)
}
fn claw_mint() -> Key {
    key(5)
}
fn agent() -> Key {
    key(6)
}
fn recipient() -> Key {
    key(7)
}
fn funder_ata() -> Key {
    key(8)
}

fn create_accounts() -> CreateVault {
    CreateVault { funder: funder(), vault: vault_addr(), token_mint: mint(), vault_token_account: custody() }
}

fn new_vault(max_amount: u64, expiry: Option<i64>) -> ClawVault {
    create_vault(&create_accounts(), max_amount, expiry, 254, NOW).unwrap().0
}

fn bind(v: &mut ClawVault) {
    let a = MintClaw { funder: funder(), vault: vault_addr(), claw_mint: claw_mint(), recipient: agent() };
    mint_claw(v, &a).unwrap();
}

fn holder(units: u64) -> Spend {
    Spend {
        spender: agent(),
        vault: vault_addr(),
        claw_owner: agent(),
        claw_mint: claw_mint(),
        claw_amount: units,
        recipient_token_account: recipient(),
    }
}

fn burn_accounts(signer: Key, balance: u64) -> BurnClaw {
    BurnClaw { funder: signer, vault: vault_addr(), funder_token_account: funder_ata(), vault_token_balance: balance }
}

fn fund_accounts(signer: Key, balance: u64) -> FundVault {
    FundVault { funder: signer, vault: vault_addr(), funder_token_account: funder_ata(), vault_token_balance: balance }
}

#[test]
fn create_sets_fresh_state() {
    let (v, e) = create_vault(&create_accounts(), 100, Some(5_000), 254, NOW).unwrap();
    assert_eq!(v.funder, funder());
    assert_eq!(v.token_mint, mint());
    assert_eq!(v.token_account, custody());
    assert_eq!(v.max_amount, 100);
    assert_eq!(v.spent_amount, 0);
    assert_eq!(v.expiry, Some(5_000));
    assert!(v.claw_nft_mint.is_unset());
    assert_eq!(v.bump, 254);
    assert!(v.is_active);
    assert_eq!(e.vault, vault_addr());
    assert_eq!(e.funder, funder());
    assert_eq!(e.max_amount, 100);
    assert_eq!(e.expiry, Some(5_000));
}

#[test]
fn create_rejects_zero_ceiling() {
    assert_eq!(create_vault(&create_accounts(), 0, None, 1, NOW).err(), Some(ClawError::InvalidConfig));
}

#[test]
fn create_rejects_past_expiry() {
    assert_eq!(create_vault(&create_accounts(), 10, Some(NOW - 1), 1, NOW).err(), Some(ClawError::InvalidConfig));
    assert!(create_vault(&create_accounts(), 10, Some(NOW), 1, NOW).is_ok());
}

#[test]
fn fund_orders_transfer_into_custody() {
    let v = new_vault(100, None);
    let o = fund_vault(&v, &fund_accounts(funder(), 30), 70).unwrap();
    assert_eq!(o.transfer.from, funder_ata());
    assert_eq!(o.transfer.to, custody());
    assert_eq!(o.transfer.amount, 70);
    assert!(matches!(o.transfer.authority, TransferAuthority::Funder { signer } if signer == funder()));
    assert_eq!(o.event.amount, 70);
    assert_eq!(o.event.new_balance, 100);
}

#[test]
fn fund_errors() {
    let mut v = new_vault(100, None);
    assert_eq!(fund_vault(&v, &fund_accounts(agent(), 0), 5).err(), Some(ClawError::NotFunder));
    assert_eq!(fund_vault(&v, &fund_accounts(funder(), u64::MAX), 1).err(), Some(ClawError::Overflow));
    burn_claw(&mut v, &burn_accounts(funder(), 0)).unwrap();
    assert_eq!(fund_vault(&v, &fund_accounts(funder(), 0), 5).err(), Some(ClawError::VaultInactive));
}

#[test]
fn binding_is_exactly_once() {
    let mut v = new_vault(100, None);
    bind(&mut v);
    assert_eq!(v.claw_nft_mint, claw_mint());
    let other = MintClaw { funder: funder(), vault: vault_addr(), claw_mint: key(9), recipient: agent() };
    assert_eq!(mint_claw(&mut v, &other).err(), Some(ClawError::AlreadyBound));
    assert_eq!(v.claw_nft_mint, claw_mint());
}

#[test]
fn binding_errors() {
    let mut v = new_vault(100, None);
    let by_stranger = MintClaw { funder: agent(), vault: vault_addr(), claw_mint: claw_mint(), recipient: agent() };
    assert_eq!(mint_claw(&mut v, &by_stranger).err(), Some(ClawError::NotFunder));
    assert!(v.claw_nft_mint.is_unset());
    burn_claw(&mut v, &burn_accounts(funder(), 0)).unwrap();
    let a = MintClaw { funder: funder(), vault: vault_addr(), claw_mint: claw_mint(), recipient: agent() };
    assert_eq!(mint_claw(&mut v, &a).err(), Some(ClawError::VaultInactive));
}

#[test]
fn spend_before_binding_needs_claw() {
    let mut v = new_vault(100, None);
    assert_eq!(spend(&mut v, &holder(1), 10, None, NOW).err(), Some(ClawError::MustHoldClaw));
    assert_eq!(v.spent_amount, 0);
}

#[test]
fn spend_after_expiry_fails() {
    let mut v = new_vault(100, Some(2_000));
    bind(&mut v);
    assert_eq!(spend(&mut v, &holder(1), 10, None, 2_000).err(), Some(ClawError::ClawExpired));
    assert_eq!(spend(&mut v, &holder(1), 10, None, 3_000).err(), Some(ClawError::ClawExpired));
    assert_eq!(v.spent_amount, 0);
    assert!(spend(&mut v, &holder(1), 10, None, 1_999).is_ok());
}

#[test]
fn spend_with_wrong_mint_fails() {
    let mut v = new_vault(100, None);
    bind(&mut v);
    let mut a = holder(1);
    a.claw_mint = key(9);
    assert_eq!(spend(&mut v, &a, 10, None, NOW).err(), Some(ClawError::WrongClaw));
}

#[test]
fn spend_with_someone_elses_account_fails() {
    let mut v = new_vault(100, None);
    bind(&mut v);
    let mut a = holder(1);
    a.claw_owner = key(9);
    assert_eq!(spend(&mut v, &a, 10, None, NOW).err(), Some(ClawError::MustHoldClaw));
}

#[test]
fn spend_on_inactive_vault_fails() {
    let mut v = new_vault(100, None);
    bind(&mut v);
    burn_claw(&mut v, &burn_accounts(funder(), 0)).unwrap();
    assert_eq!(spend(&mut v, &holder(1), 10, None, NOW).err(), Some(ClawError::VaultInactive));
}

#[test]
fn spend_reports_overflow_on_broken_counters() {
    let mut v = new_vault(100, None);
    bind(&mut v);
    v.spent_amount = 101;
    assert_eq!(spend(&mut v, &holder(1), 0, None, NOW).err(), Some(ClawError::Overflow));
    assert_eq!(v.spent_amount, 101);
}

#[test]
fn spend_orders_transfer_signed_by_vault() {
    let mut v = new_vault(100, None);
    bind(&mut v);
    let o = spend(&mut v, &holder(1), 25, Some("coffee".to_string()), NOW).unwrap();
    assert_eq!(o.transfer.from, custody());
    assert_eq!(o.transfer.to, recipient());
    assert_eq!(o.transfer.amount, 25);
    match o.transfer.authority {
        TransferAuthority::Vault { vault, funder: f, token_mint, bump } => {
            assert_eq!(vault, vault_addr());
            assert_eq!(f, funder());
            assert_eq!(token_mint, mint());
            assert_eq!(bump, 254);
        }
        TransferAuthority::Funder { .. } => panic!("spend must be signed by the vault"),
    }
    assert_eq!(o.event.spender, agent());
    assert_eq!(o.event.remaining, 75);
    assert_eq!(o.event.memo, Some("coffee".to_string()));
}

#[test]
fn spend_sequence_scenario() {
    let mut v = new_vault(100, None);
    let f = fund_vault(&v, &fund_accounts(funder(), 0), 100).unwrap();
    assert_eq!(f.event.new_balance, 100);
    bind(&mut v);
    let a = holder(1);
    let o = spend(&mut v, &a, 60, None, NOW).unwrap();
    assert_eq!(o.event.remaining, 40);
    assert_eq!(spend(&mut v, &a, 50, None, NOW).err(), Some(ClawError::ExceedsLimit));
    assert_eq!(v.spent_amount, 60);
    let o = spend(&mut v, &a, 40, None, NOW).unwrap();
    assert_eq!(o.event.remaining, 0);
    assert_eq!(spend(&mut v, &a, 1, None, NOW).err(), Some(ClawError::ExceedsLimit));
    assert_eq!(v.spent_amount, 100);
}

#[test]
fn spend_needs_exactly_one_unit() {
    let mut v = new_vault(100, None);
    bind(&mut v);
    assert_eq!(spend(&mut v, &holder(0), 10, None, NOW).err(), Some(ClawError::MustHoldClaw));
    assert_eq!(spend(&mut v, &holder(2), 10, None, NOW).err(), Some(ClawError::MustHoldClaw));
    assert_eq!(v.spent_amount, 0);
}

#[test]
fn competing_spends_exactly_one_succeeds() {
    let mut v = new_vault(100, None);
    bind(&mut v);
    let first = spend(&mut v, &holder(1), 60, None, NOW);
    let second = spend(&mut v, &holder(1), 60, None, NOW);
    assert!(first.is_ok());
    assert_eq!(second.err(), Some(ClawError::ExceedsLimit));
    assert_eq!(v.spent_amount, 60);
}

#[test]
fn spent_amount_sums_successes() {
    let mut v = new_vault(50, None);
    bind(&mut v);
    let mut total: u64 = 0;
    for amount in [10u64, 30, 20, 5, 0, 6, 5] {
        if spend(&mut v, &holder(1), amount, None, NOW).is_ok() {
            total += amount;
        }
        assert_eq!(v.spent_amount, total);
        assert!(v.spent_amount <= v.max_amount);
    }
    assert_eq!(total, 50);
}

#[test]
fn burn_is_funder_gated_and_single_use() {
    let mut v = new_vault(100, None);
    assert_eq!(burn_claw(&mut v, &burn_accounts(agent(), 10)).err(), Some(ClawError::NotFunder));
    assert!(v.is_active);
    burn_claw(&mut v, &burn_accounts(funder(), 10)).unwrap();
    assert!(!v.is_active);
    assert_eq!(burn_claw(&mut v, &burn_accounts(funder(), 0)).err(), Some(ClawError::VaultInactive));
    assert_eq!(burn_claw(&mut v, &burn_accounts(agent(), 0)).err(), Some(ClawError::NotFunder));
}

#[test]
fn fund_then_burn_returns_deposit() {
    let mut v = new_vault(100, None);
    let f = fund_vault(&v, &fund_accounts(funder(), 0), 80).unwrap();
    let o = burn_claw(&mut v, &burn_accounts(funder(), f.event.new_balance)).unwrap();
    assert_eq!(o.recovered, 80);
    let t = o.transfer.unwrap();
    assert_eq!(t.from, custody());
    assert_eq!(t.to, funder_ata());
    assert_eq!(t.amount, 80);
    assert!(!v.is_active);
    assert_eq!(v.spent_amount, 0);
    assert_eq!(o.event.recovered, 80);
    assert_eq!(o.event.total_spent, 0);
}

#[test]
fn burn_ignores_spend_history() {
    let mut v = new_vault(100, None);
    bind(&mut v);
    spend(&mut v, &holder(1), 30, None, NOW).unwrap();
    let o = burn_claw(&mut v, &burn_accounts(funder(), 70)).unwrap();
    assert_eq!(o.recovered, 70);
    assert_eq!(o.event.total_spent, 30);
    let empty = burn_claw(&mut new_vault(5, None), &burn_accounts(funder(), 0)).unwrap();
    assert!(empty.transfer.is_none());
    assert_eq!(empty.recovered, 0);
}

#[test]
fn failed_transfer_rolls_back() {
    let mut v = new_vault(100, None);
    bind(&mut v);
    let prior = v;
    spend(&mut v, &holder(1), 30, None, NOW).unwrap();
    assert_eq!(finish_transfer(&mut v, &prior, false), Err(ClawError::TransferFailed));
    assert_eq!(v.spent_amount, 0);
    spend(&mut v, &holder(1), 30, None, NOW).unwrap();
    assert_eq!(finish_transfer(&mut v, &prior, true), Ok(()));
    assert_eq!(v.spent_amount, 30);
}

#[test]
fn keys_compare_by_bytes() {
    let mut b = [7u8; 32];
    assert_eq!(Key::new(b), key(7));
    b[31] = 8;
    assert_ne!(Key::new(b), key(7));
    assert!(Key::unset().is_unset());
    assert!(!Key::new(b).is_unset());
    assert_eq!(Key::unset(), key(0));
}

#[test]
fn remaining_and_expiry_helpers() {
    let mut v = new_vault(100, Some(2_000));
    assert_eq!(v.remaining(), Some(100));
    assert!(!v.is_expired_at(1_999));
    assert!(v.is_expired_at(2_000));
    assert!(!v.has_claw());
    bind(&mut v);
    assert!(v.has_claw());
    v.spent_amount = 101;
    assert_eq!(v.remaining(), None);
}

#[test]
fn error_messages() {
    assert_eq!(ClawError::VaultInactive.message(), "Vault is not active");
    assert_eq!(ClawError::ExceedsLimit.message(), "Spending amount exceeds remaining limit");
    assert_eq!(ClawError::NotFunder.message(), "Only the funder can perform this action");
}
