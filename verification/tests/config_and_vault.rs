//! The config lifecycle (init, update, resize, close) and the lamport vault.

use escrow_core::account::Account;
use escrow_core::addr::{derive_pda1, CONFIG_SEED, SYSTEM_PROGRAM_ID, VAULT_SEED};
use escrow_core::config::{Config2, CONFIG_LEN};
use escrow_core::errors::MyError;
use escrow_core::lifecycle::{CloseConfigPda, Config2Update, ConfigResize, InitConfig};
use escrow_core::vault::{ensure_vault_exists, DepositSol, WithdrawSol};
use escrow_core::PROGRAM_ID;

const CV_RENT_CONFIG: u64 = 3_200_000;
const CV_RENT_VAULT: u64 = 1_000_000;

fn cv_wallet(key: [u8; 32], lamports: u64, signer: bool) -> Account {
    Account {
        key,
        lamports,
        data: Vec::new(),
        owner: SYSTEM_PROGRAM_ID,
        is_signer: signer,
        is_writable: true,
        executable: false,
    }
}

fn cv_empty(key: [u8; 32]) -> Account {
    Account {
        key,
        lamports: 0,
        data: Vec::new(),
        owner: SYSTEM_PROGRAM_ID,
        is_signer: false,
        is_writable: true,
        executable: false,
    }
}

fn cv_sysprog() -> Account {
    let mut a = cv_empty(SYSTEM_PROGRAM_ID);
    a.executable = true;
    a
}

/// Create a config record owned by authority [1; 32].
fn cv_init() -> InitConfig {
    let auth = [1u8; 32];
    let (cfg_key, _) = derive_pda1(&CONFIG_SEED, &auth).unwrap();
    let accounts = vec![
        cv_wallet(auth, 1_000_000_000, true),
        cv_empty(cfg_key),
        cv_wallet([2; 32], 0, false),
        cv_sysprog(),
    ];
    let data = 55u64.to_le_bytes();
    let mut ix = InitConfig::try_from(&data, accounts).unwrap();
    ix.process(CV_RENT_CONFIG, 1_700_000_000).unwrap();
    ix
}

#[test]
fn init_config_populates_record() {
    let ix = cv_init();
    assert_eq!(ix.config_pda.data.len(), CONFIG_LEN);
    assert_eq!(ix.config_pda.owner, PROGRAM_ID);
    assert_eq!(ix.config_pda.lamports, CV_RENT_CONFIG);
    let cfg = Config2::load(&ix.config_pda).unwrap();
    assert_eq!(cfg.admin, [1; 32]);
    assert_eq!(cfg.prog_owner, [2; 32]);
    assert_eq!(cfg.fee, 55);
    assert_eq!(cfg.status, 0);
    let (vault_key, vault_bump) = derive_pda1(&VAULT_SEED, &[1; 32]).unwrap();
    assert_eq!(cfg.vault, vault_key);
    assert_eq!(cfg.vault_bump, vault_bump);
}

#[test]
fn init_config_refuses_funded_slot() {
    let auth = [1u8; 32];
    let (cfg_key, _) = derive_pda1(&CONFIG_SEED, &auth).unwrap();
    let mut funded = cv_empty(cfg_key);
    funded.lamports = 5;
    let accounts = vec![
        cv_wallet(auth, 1_000_000_000, true),
        funded,
        cv_wallet([2; 32], 0, false),
        cv_sysprog(),
    ];
    let mut ix = InitConfig::try_from(&55u64.to_le_bytes(), accounts).unwrap();
    assert_eq!(
        ix.process(CV_RENT_CONFIG, 0),
        Err(MyError::AccountAlreadyInitialized)
    );
}

#[test]
fn init_config_refuses_wrong_address() {
    let auth = [1u8; 32];
    let accounts = vec![
        cv_wallet(auth, 1_000_000_000, true),
        cv_empty([9; 32]),
        cv_wallet([2; 32], 0, false),
        cv_sysprog(),
    ];
    let mut ix = InitConfig::try_from(&55u64.to_le_bytes(), accounts).unwrap();
    assert_eq!(ix.process(CV_RENT_CONFIG, 0), Err(MyError::ConfigPDA));
}

/// The 88-byte update payload.
fn cv_update_payload(selector: u8, status: u8, fee: u64) -> Vec<u8> {
    let mut d = vec![0u8, 0, 0, 0, selector, status, 0, 0];
    for i in 1u32..=4 {
        d.extend_from_slice(&i.to_le_bytes());
    }
    d.extend_from_slice(&fee.to_le_bytes());
    for i in 2u64..=4 {
        d.extend_from_slice(&i.to_le_bytes());
    }
    d.extend_from_slice(&[7u8; 32]);
    d
}

fn cv_update(selector: u8, authority_key: [u8; 32]) -> Result<Config2Update, MyError> {
    let init = cv_init();
    let accounts = vec![
        cv_wallet(authority_key, 1_000, true),
        init.config_pda,
        cv_wallet([5; 32], 0, false),
        cv_wallet([6; 32], 0, false),
    ];
    Config2Update::try_from(&cv_update_payload(selector, 1, 99), accounts)
}

#[test]
fn update_fee_group_is_all_or_nothing() {
    let mut u = cv_update(1, [1; 32]).unwrap();
    u.process(1_700_000_123).unwrap();
    assert_eq!(u.config2.fee, 99);
    assert_eq!(u.config2.updated_at, 1_700_000_123);
    assert_eq!(u.config2.status, 1);
    assert_eq!(u.config2.admin, [5; 32]);
    // the slot's payload was rewritten to match
    let stored = Config2::from_bytes(&u.config_pda.data);
    assert_eq!(stored.fee, 99);
    assert_eq!(stored.admin, [5; 32]);
}

#[test]
fn update_status_group() {
    let mut u = cv_update(0, [1; 32]).unwrap();
    u.process(0).unwrap();
    assert_eq!(u.config2.status, 1);
}

#[test]
fn update_admin_needs_owner() {
    // authority [1; 32] is the admin but not the owner ([2; 32])
    let mut u = cv_update(2, [1; 32]).unwrap();
    assert_eq!(u.process(0), Err(MyError::OnlyProgOwner));
    // the owner may
    let mut v = cv_update(2, [2; 32]).unwrap();
    v.process(0).unwrap();
    assert_eq!(v.config2.admin, [5; 32]);
}

#[test]
fn update_unknown_selector_refused() {
    let mut u = cv_update(9, [1; 32]).unwrap();
    assert_eq!(u.process(0), Err(MyError::FunctionSelector));
}

#[test]
fn update_by_stranger_refused() {
    assert_eq!(cv_update(0, [9; 32]).err(), Some(MyError::IncorrectAuthority));
}

#[test]
fn update_rejects_bad_status_byte() {
    let init = cv_init();
    let accounts = vec![
        cv_wallet([1; 32], 1_000, true),
        init.config_pda,
        cv_wallet([5; 32], 0, false),
        cv_wallet([6; 32], 0, false),
    ];
    let data = cv_update_payload(0, 9, 99);
    assert_eq!(
        Config2Update::try_from(&data, accounts).err(),
        Some(MyError::InputStatus)
    );
}

#[test]
fn update_add_tokens_accumulates() {
    let mut u = cv_update(0, [1; 32]).unwrap();
    // u64s[1] is 2 in the payload
    u.add_tokens().unwrap();
    assert_eq!(u.config2.token_balance, 2);
    u.add_tokens().unwrap();
    assert_eq!(u.config2.token_balance, 4);
}

fn cv_resize(init: &InitConfig, new_len: u64) -> ConfigResize {
    let accounts = vec![
        cv_wallet([1; 32], 1_000_000_000, true),
        Account {
            key: init.config_pda.key,
            lamports: init.config_pda.lamports,
            data: init.config_pda.data.clone(),
            owner: init.config_pda.owner,
            is_signer: false,
            is_writable: true,
            executable: false,
        },
        cv_sysprog(),
    ];
    ConfigResize::try_from(&new_len.to_le_bytes(), accounts).unwrap()
}

#[test]
fn resize_settles_to_exact_minimum() {
    let init = cv_init();
    let mut r = cv_resize(&init, 500);
    let rent_500: u64 = 4_000_000;
    r.process(rent_500).unwrap();
    assert_eq!(r.config_pda.data.len(), 500);
    assert_eq!(r.config_pda.lamports, rent_500);
    // the added bytes read as zero
    assert_eq!(r.config_pda.data[499], 0);
}

#[test]
fn resize_round_trip_restores_minimum_balance() {
    let init = cv_init();
    let start = init.config_pda.lamports;
    let rent_500: u64 = 4_000_000;
    let mut first = cv_resize(&init, 500);
    first.process(rent_500).unwrap();
    // resize back to the original size with the original oracle answer
    let accounts = vec![
        cv_wallet([1; 32], 1_000_000_000, true),
        Account {
            key: first.config_pda.key,
            lamports: first.config_pda.lamports,
            data: first.config_pda.data.clone(),
            owner: first.config_pda.owner,
            is_signer: false,
            is_writable: true,
            executable: false,
        },
        cv_sysprog(),
    ];
    let mut second =
        ConfigResize::try_from(&(CONFIG_LEN as u64).to_le_bytes(), accounts).unwrap();
    second.process(CV_RENT_CONFIG).unwrap();
    assert_eq!(second.config_pda.data.len(), CONFIG_LEN);
    assert_eq!(second.config_pda.lamports, start);
}

#[test]
fn resize_zero_length_refused() {
    let init = cv_init();
    let accounts = vec![
        cv_wallet([1; 32], 1_000, true),
        init.config_pda,
        cv_sysprog(),
    ];
    assert_eq!(
        ConfigResize::try_from(&0u64.to_le_bytes(), accounts).err(),
        Some(MyError::ZeroAsInput)
    );
}

#[test]
fn close_config_sweeps_and_releases() {
    let init = cv_init();
    let accounts = vec![
        cv_wallet([1; 32], 1_000, true),
        init.config_pda,
        cv_wallet([8; 32], 10, false),
    ];
    let mut c = CloseConfigPda::try_from(accounts).unwrap();
    c.process().unwrap();
    assert_eq!(c.pda.data.len(), 0);
    assert_eq!(c.pda.lamports, 0);
    assert_eq!(c.dest.lamports, 10 + CV_RENT_CONFIG);
}

#[test]
fn close_config_needs_admin_or_owner() {
    let init = cv_init();
    let accounts = vec![
        cv_wallet([9; 32], 1_000, true),
        init.config_pda,
        cv_wallet([8; 32], 10, false),
    ];
    let mut c = CloseConfigPda::try_from(accounts).unwrap();
    assert_eq!(c.process(), Err(MyError::IncorrectAuthority));
}

#[test]
fn close_config_wrong_length_refused() {
    let init = cv_init();
    let mut pda = init.config_pda;
    pda.data.truncate(10);
    let accounts = vec![
        cv_wallet([1; 32], 1_000, true),
        pda,
        cv_wallet([8; 32], 10, false),
    ];
    let mut c = CloseConfigPda::try_from(accounts).unwrap();
    assert_eq!(c.process(), Err(MyError::ConfigDataLengh));
}

#[test]
fn deposit_creates_vault_then_funds_it() {
    let user_key = [1u8; 32];
    let (vault_key, _) = derive_pda1(&VAULT_SEED, &user_key).unwrap();
    let accounts = vec![
        cv_wallet(user_key, 1_000_000_000, true),
        cv_empty(vault_key),
        cv_sysprog(),
    ];
    let mut d = DepositSol::try_from(&500u64.to_le_bytes(), accounts).unwrap();
    d.process(CV_RENT_VAULT).unwrap();
    assert_eq!(d.vault.lamports, CV_RENT_VAULT + 500);
    assert_eq!(d.vault.owner, PROGRAM_ID);
    assert_eq!(d.user.lamports, 1_000_000_000 - CV_RENT_VAULT - 500);
}

#[test]
fn deposit_existing_vault_validates_it() {
    let user_key = [1u8; 32];
    let (vault_key, _) = derive_pda1(&VAULT_SEED, &user_key).unwrap();
    let mut vault = cv_empty(vault_key);
    vault.lamports = CV_RENT_VAULT;
    vault.owner = PROGRAM_ID;
    let accounts = vec![cv_wallet(user_key, 1_000, true), vault, cv_sysprog()];
    let mut d = DepositSol::try_from(&500u64.to_le_bytes(), accounts).unwrap();
    d.process(CV_RENT_VAULT).unwrap();
    assert_eq!(d.vault.lamports, CV_RENT_VAULT + 500);
    assert_eq!(d.user.lamports, 500);
}

#[test]
fn deposit_foreign_vault_refused() {
    let user_key = [1u8; 32];
    let (vault_key, _) = derive_pda1(&VAULT_SEED, &user_key).unwrap();
    let mut vault = cv_empty(vault_key);
    vault.lamports = CV_RENT_VAULT;
    // funded but owned by someone else
    let accounts = vec![cv_wallet(user_key, 1_000, true), vault, cv_sysprog()];
    let mut d = DepositSol::try_from(&500u64.to_le_bytes(), accounts).unwrap();
    assert_eq!(d.process(CV_RENT_VAULT), Err(MyError::ForeignPDA));
}

#[test]
fn vault_ensure_twice_creates_once() {
    let user_key = [1u8; 32];
    let (vault_key, _) = derive_pda1(&VAULT_SEED, &user_key).unwrap();
    let mut user = cv_wallet(user_key, 1_000_000_000, true);
    let mut vault = cv_empty(vault_key);
    assert_eq!(
        ensure_vault_exists(&mut user, &mut vault, CV_RENT_VAULT),
        Ok(true)
    );
    let lamports_after = vault.lamports;
    assert_eq!(
        ensure_vault_exists(&mut user, &mut vault, CV_RENT_VAULT),
        Ok(false)
    );
    assert_eq!(vault.lamports, lamports_after);
}

#[test]
fn withdraw_leaves_rent_minimum() {
    let user_key = [1u8; 32];
    let (vault_key, _) = derive_pda1(&VAULT_SEED, &user_key).unwrap();
    let mut vault = cv_empty(vault_key);
    vault.lamports = CV_RENT_VAULT + 800;
    vault.owner = PROGRAM_ID;
    let accounts = vec![cv_wallet(user_key, 100, true), vault];
    let mut w = WithdrawSol::try_from(&500u64.to_le_bytes(), accounts).unwrap();
    w.process(CV_RENT_VAULT).unwrap();
    assert_eq!(w.vault.lamports, CV_RENT_VAULT + 300);
    assert_eq!(w.user.lamports, 600);
}

#[test]
fn withdraw_cannot_break_rent_minimum() {
    let user_key = [1u8; 32];
    let (vault_key, _) = derive_pda1(&VAULT_SEED, &user_key).unwrap();
    let mut vault = cv_empty(vault_key);
    vault.lamports = CV_RENT_VAULT + 400;
    vault.owner = PROGRAM_ID;
    let accounts = vec![cv_wallet(user_key, 100, true), vault];
    let mut w = WithdrawSol::try_from(&400u64.to_le_bytes(), accounts).unwrap();
    assert_eq!(w.process(CV_RENT_VAULT), Err(MyError::InsufficientFunds));
}

#[test]
fn withdraw_from_drained_vault_refused() {
    let user_key = [1u8; 32];
    let (vault_key, _) = derive_pda1(&VAULT_SEED, &user_key).unwrap();
    let mut vault = cv_empty(vault_key);
    vault.lamports = CV_RENT_VAULT;
    vault.owner = PROGRAM_ID;
    let accounts = vec![cv_wallet(user_key, 100, true), vault];
    let mut w = WithdrawSol::try_from(&1u64.to_le_bytes(), accounts).unwrap();
    assert_eq!(w.process(CV_RENT_VAULT), Err(MyError::AccountNotRentExempt));
}

#[test]
fn withdraw_wrong_vault_address_refused() {
    let user_key = [1u8; 32];
    let mut vault = cv_empty([9; 32]);
    vault.lamports = CV_RENT_VAULT + 800;
    vault.owner = PROGRAM_ID;
    let accounts = vec![cv_wallet(user_key, 100, true), vault];
    let mut w = WithdrawSol::try_from(&500u64.to_le_bytes(), accounts).unwrap();
    assert_eq!(w.process(CV_RENT_VAULT), Err(MyError::InvalidAccountData));
}

#[test]
fn update_add_tokens_overflow_refused() {
    let mut u = cv_update(0, [1; 32]).unwrap();
    u.config2.token_balance = u64::MAX - 1;
    // u64s[1] is 2 in the payload: one more unit than fits
    assert_eq!(u.add_tokens(), Err(MyError::ArithmeticOverflow));
    assert_eq!(u.config2.token_balance, u64::MAX - 1);
}

#[test]
fn close_config_overflow_refused() {
    let init = cv_init();
    let accounts = vec![
        cv_wallet([1; 32], 1_000, true),
        init.config_pda,
        cv_wallet([8; 32], u64::MAX, false),
    ];
    let mut c = CloseConfigPda::try_from(accounts).unwrap();
    assert_eq!(c.process(), Err(MyError::ArithmeticOverflow));
}
