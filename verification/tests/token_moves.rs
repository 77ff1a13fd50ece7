//! Guarded token movements: deposit, vault pay/redeem, withdraw, and mint.

use escrow_core::account::{mint_bytes, mint_supply, ta_amount, token_account_bytes, Account};
use escrow_core::addr::{derive_pda1, ATA_PROGRAM_ID, SYSTEM_PROGRAM_ID, TOKEN_PROGRAM_ID, VAULT_SEED};
use escrow_core::config::Config2;
use escrow_core::errors::MyError;
use escrow_core::tokens::{TokLgcDeposit, TokLgcMintToken, TokLgcPay, TokLgcRedeem, TokLgcWithdraw};
use escrow_core::PROGRAM_ID;

const TM_RENT_MINT: u64 = 1_461_600;
const TM_RENT_TOKACCT: u64 = 2_039_280;

fn tm_wallet(key: [u8; 32], lamports: u64, signer: bool) -> Account {
    Account {
        key,
        lamports,
        data: Vec::new(),
        owner: SYSTEM_PROGRAM_ID,
        is_signer: signer,
        is_writable: true,
        executable: false,
    }
}

fn tm_mint(key: [u8; 32], authority: Option<&[u8; 32]>, decimals: u8) -> Account {
    Account {
        key,
        lamports: TM_RENT_MINT,
        data: mint_bytes(authority, 1_000, decimals),
        owner: TOKEN_PROGRAM_ID,
        is_signer: false,
        is_writable: true,
        executable: false,
    }
}

fn tm_ata(key: [u8; 32], mint: &[u8; 32], owner: &[u8; 32], amount: u64) -> Account {
    Account {
        key,
        lamports: TM_RENT_TOKACCT,
        data: token_account_bytes(mint, owner, amount),
        owner: TOKEN_PROGRAM_ID,
        is_signer: false,
        is_writable: true,
        executable: false,
    }
}

fn tm_empty(key: [u8; 32]) -> Account {
    Account {
        key,
        lamports: 0,
        data: Vec::new(),
        owner: SYSTEM_PROGRAM_ID,
        is_signer: false,
        is_writable: true,
        executable: false,
    }
}

fn tm_program(key: [u8; 32]) -> Account {
    Account {
        key,
        lamports: 1,
        data: Vec::new(),
        owner: SYSTEM_PROGRAM_ID,
        is_signer: false,
        is_writable: false,
        executable: true,
    }
}

fn tm_payload(decimals: u8, amount: u64) -> Vec<u8> {
    let mut d = vec![decimals];
    d.extend_from_slice(&amount.to_le_bytes());
    d
}

#[test]
fn token_deposit_moves_amount() {
    let user = [1u8; 32];
    let mint = [2u8; 32];
    let wallet = [3u8; 32];
    let mut pda_wallet = tm_wallet(wallet, 5, false);
    pda_wallet.owner = PROGRAM_ID;
    let accounts = vec![
        tm_wallet(user, 1_000_000_000, true),
        tm_ata([10; 32], &mint, &user, 700),
        tm_empty([11; 32]),
        pda_wallet,
        tm_mint(mint, None, 6),
        tm_program(TOKEN_PROGRAM_ID),
        tm_program(SYSTEM_PROGRAM_ID),
        tm_program(ATA_PROGRAM_ID),
    ];
    let mut d = TokLgcDeposit::try_from(&tm_payload(6, 300), accounts).unwrap();
    let created = d.process(TM_RENT_MINT, TM_RENT_TOKACCT).unwrap();
    assert!(created);
    assert_eq!(ta_amount(&d.from_ata.data), 400);
    assert_eq!(ta_amount(&d.to_ata.data), 300);
}

#[test]
fn token_deposit_wrong_decimals_refused() {
    let user = [1u8; 32];
    let mint = [2u8; 32];
    let wallet = [3u8; 32];
    let mut pda_wallet = tm_wallet(wallet, 5, false);
    pda_wallet.owner = PROGRAM_ID;
    let accounts = vec![
        tm_wallet(user, 1_000_000_000, true),
        tm_ata([10; 32], &mint, &user, 700),
        tm_empty([11; 32]),
        pda_wallet,
        tm_mint(mint, None, 6),
        tm_program(TOKEN_PROGRAM_ID),
        tm_program(SYSTEM_PROGRAM_ID),
        tm_program(ATA_PROGRAM_ID),
    ];
    let mut d = TokLgcDeposit::try_from(&tm_payload(9, 300), accounts).unwrap();
    assert_eq!(
        d.process(TM_RENT_MINT, TM_RENT_TOKACCT),
        Err(MyError::DecimalsValue)
    );
}

#[test]
fn token_withdraw_under_vault_authority() {
    let user = [1u8; 32];
    let mint = [2u8; 32];
    let (vault_key, _) = derive_pda1(&VAULT_SEED, &user).unwrap();
    let accounts = vec![
        tm_wallet(user, 1_000_000_000, true),
        tm_ata([10; 32], &mint, &vault_key, 700),
        tm_empty([11; 32]),
        tm_wallet(vault_key, 5, false),
        tm_mint(mint, None, 6),
        tm_program(TOKEN_PROGRAM_ID),
        tm_program(SYSTEM_PROGRAM_ID),
        tm_program(ATA_PROGRAM_ID),
    ];
    let mut w = TokLgcWithdraw::try_from(&tm_payload(6, 200), accounts, TM_RENT_MINT).unwrap();
    w.process(TM_RENT_TOKACCT).unwrap();
    assert_eq!(ta_amount(&w.from_ata.data), 500);
    assert_eq!(ta_amount(&w.to_ata.data), 200);
}

#[test]
fn token_withdraw_wrong_vault_refused() {
    let user = [1u8; 32];
    let mint = [2u8; 32];
    let accounts = vec![
        tm_wallet(user, 1_000_000_000, true),
        tm_ata([10; 32], &mint, &[9; 32], 700),
        tm_empty([11; 32]),
        tm_wallet([9; 32], 5, false),
        tm_mint(mint, None, 6),
        tm_program(TOKEN_PROGRAM_ID),
        tm_program(SYSTEM_PROGRAM_ID),
        tm_program(ATA_PROGRAM_ID),
    ];
    assert_eq!(
        TokLgcWithdraw::try_from(&tm_payload(6, 200), accounts, TM_RENT_MINT).err(),
        Some(MyError::VaultPDA)
    );
}

fn tm_config(vault: [u8; 32], mint: [u8; 32]) -> Account {
    let mut cfg = Config2::from_bytes(&vec![0u8; escrow_core::config::CONFIG_LEN]);
    cfg.mint0 = mint;
    cfg.vault = vault;
    cfg.prog_owner = [7; 32];
    cfg.admin = [8; 32];
    Account {
        key: [40; 32],
        lamports: 1,
        data: cfg.to_bytes(),
        owner: PROGRAM_ID,
        is_signer: false,
        is_writable: true,
        executable: false,
    }
}

#[test]
fn token_pay_into_vault() {
    let user = [1u8; 32];
    let mint = [2u8; 32];
    let vault = [5u8; 32];
    let accounts = vec![
        tm_wallet(user, 1_000_000_000, true),
        tm_ata([10; 32], &mint, &user, 700),
        tm_empty([11; 32]),
        tm_wallet(vault, 5, false),
        tm_mint(mint, None, 6),
        tm_config(vault, mint),
        tm_program(TOKEN_PROGRAM_ID),
        tm_program(SYSTEM_PROGRAM_ID),
        tm_program(ATA_PROGRAM_ID),
    ];
    let mut p = TokLgcPay::try_from(&tm_payload(6, 250), accounts, TM_RENT_MINT).unwrap();
    p.process(TM_RENT_TOKACCT).unwrap();
    assert_eq!(ta_amount(&p.from_ata.data), 450);
    assert_eq!(ta_amount(&p.to_ata.data), 250);
}

#[test]
fn token_pay_unlisted_mint_refused() {
    let user = [1u8; 32];
    let mint = [2u8; 32];
    let vault = [5u8; 32];
    let accounts = vec![
        tm_wallet(user, 1_000_000_000, true),
        tm_ata([10; 32], &mint, &user, 700),
        tm_empty([11; 32]),
        tm_wallet(vault, 5, false),
        tm_mint(mint, None, 6),
        tm_config(vault, [6; 32]),
        tm_program(TOKEN_PROGRAM_ID),
        tm_program(SYSTEM_PROGRAM_ID),
        tm_program(ATA_PROGRAM_ID),
    ];
    assert_eq!(
        TokLgcPay::try_from(&tm_payload(6, 250), accounts, TM_RENT_MINT).err(),
        Some(MyError::MintNotAccepted)
    );
}

#[test]
fn token_redeem_from_vault() {
    let user = [1u8; 32];
    let mint = [2u8; 32];
    let vault = [5u8; 32];
    let accounts = vec![
        tm_wallet(user, 1_000_000_000, true),
        tm_ata([10; 32], &mint, &vault, 700),
        tm_empty([11; 32]),
        tm_wallet(vault, 5, false),
        tm_config(vault, mint),
        tm_mint(mint, None, 6),
        tm_program(TOKEN_PROGRAM_ID),
        tm_program(SYSTEM_PROGRAM_ID),
        tm_program(ATA_PROGRAM_ID),
        tm_program(escrow_core::addr::RENT_SYSVAR_ID),
    ];
    let mut r = TokLgcRedeem::try_from(&tm_payload(6, 100), accounts, TM_RENT_MINT).unwrap();
    r.process(TM_RENT_TOKACCT).unwrap();
    assert_eq!(ta_amount(&r.from_ata.data), 600);
    assert_eq!(ta_amount(&r.to_ata.data), 100);
    assert_eq!(r.prog_owner, [7; 32]);
}

#[test]
fn mint_token_grows_supply_and_balance() {
    let authority = [1u8; 32];
    let wallet = [3u8; 32];
    let mint_key = [2u8; 32];
    let accounts = vec![
        tm_wallet(authority, 1_000_000_000, true),
        tm_wallet(wallet, 5, false),
        tm_mint(mint_key, Some(&authority), 6),
        tm_empty([11; 32]),
        tm_program(TOKEN_PROGRAM_ID),
        tm_program(SYSTEM_PROGRAM_ID),
        tm_program(ATA_PROGRAM_ID),
    ];
    let mut m = TokLgcMintToken::try_from(&tm_payload(6, 400), accounts).unwrap();
    let created = m.process(TM_RENT_MINT, TM_RENT_TOKACCT).unwrap();
    assert!(created);
    assert_eq!(mint_supply(&m.mint.data), 1_400);
    assert_eq!(ta_amount(&m.token_account.data), 400);
}

#[test]
fn mint_token_wrong_authority_refused() {
    let wallet = [3u8; 32];
    let mint_key = [2u8; 32];
    let accounts = vec![
        tm_wallet([9; 32], 1_000_000_000, true),
        tm_wallet(wallet, 5, false),
        tm_mint(mint_key, Some(&[1; 32]), 6),
        tm_empty([11; 32]),
        tm_program(TOKEN_PROGRAM_ID),
        tm_program(SYSTEM_PROGRAM_ID),
        tm_program(ATA_PROGRAM_ID),
    ];
    let mut m = TokLgcMintToken::try_from(&tm_payload(6, 400), accounts).unwrap();
    assert_eq!(
        m.process(TM_RENT_MINT, TM_RENT_TOKACCT),
        Err(MyError::IncorrectAuthority)
    );
}
