//! End-to-end runs of the escrow state machine on concrete account models.

use escrow_core::account::{mint_bytes, ta_amount, token_account_bytes, Account};
use escrow_core::addr::{
    derive_escrow_address, ATA_PROGRAM_ID, SYSTEM_PROGRAM_ID, TOKEN_PROGRAM_ID,
};
use escrow_core::errors::MyError;
use escrow_core::escrow::{ensure_ata, EscrowTokCancel, EscrowTokMake, EscrowTokTake};
use escrow_core::PROGRAM_ID;

const RENT_ESCROW: u64 = 2_000_000;
const RENT_TOKACCT: u64 = 2_039_280;
const RENT_MINT: u64 = 1_461_600;

fn flow_addr(n: u8) -> [u8; 32] {
    [n; 32]
}

fn flow_wallet(key: [u8; 32], lamports: u64, signer: bool) -> Account {
    Account {
        key,
        lamports,
        data: Vec::new(),
        owner: SYSTEM_PROGRAM_ID,
        is_signer: signer,
        is_writable: true,
        executable: false,
    }
}

fn flow_mint(key: [u8; 32], decimals: u8) -> Account {
    Account {
        key,
        lamports: RENT_MINT,
        data: mint_bytes(None, 1_000_000_000, decimals),
        owner: TOKEN_PROGRAM_ID,
        is_signer: false,
        is_writable: false,
        executable: false,
    }
}

fn flow_ata(key: [u8; 32], mint: &[u8; 32], owner: &[u8; 32], amount: u64) -> Account {
    Account {
        key,
        lamports: RENT_TOKACCT,
        data: token_account_bytes(mint, owner, amount),
        owner: TOKEN_PROGRAM_ID,
        is_signer: false,
        is_writable: true,
        executable: false,
    }
}

fn flow_empty_slot(key: [u8; 32]) -> Account {
    Account {
        key,
        lamports: 0,
        data: Vec::new(),
        owner: SYSTEM_PROGRAM_ID,
        is_signer: false,
        is_writable: true,
        executable: false,
    }
}

fn flow_program(key: [u8; 32]) -> Account {
    Account {
        key,
        lamports: 1,
        data: Vec::new(),
        owner: SYSTEM_PROGRAM_ID,
        is_signer: false,
        is_writable: false,
        executable: true,
    }
}

/// The 26-byte swap payload: decimals and amounts for both sides plus the id.
fn flow_payload(dx: u8, ax: u64, dy: u8, ay: u64, id: u64) -> Vec<u8> {
    let mut d = vec![dx];
    d.extend_from_slice(&ax.to_le_bytes());
    d.push(dy);
    d.extend_from_slice(&ay.to_le_bytes());
    d.extend_from_slice(&id.to_le_bytes());
    d
}

/// Run a full Make for 500 X (6 decimals) against 10 Y (9 decimals), id 7.
fn flow_make() -> EscrowTokMake {
    let maker_key = flow_addr(1);
    let mint_x_key = flow_addr(2);
    let mint_y_key = flow_addr(3);
    let (escrow_key, _bump) = derive_escrow_address(&maker_key, 7).unwrap();
    let accounts = vec![
        flow_wallet(maker_key, 1_000_000_000, true),
        flow_ata(flow_addr(10), &mint_x_key, &maker_key, 1_000),
        flow_empty_slot(flow_addr(11)),
        flow_mint(mint_x_key, 6),
        flow_mint(mint_y_key, 9),
        flow_empty_slot(escrow_key),
        flow_program(TOKEN_PROGRAM_ID),
        flow_program(SYSTEM_PROGRAM_ID),
        flow_program(ATA_PROGRAM_ID),
    ];
    let data = flow_payload(6, 500, 9, 10, 7);
    let mut m = EscrowTokMake::try_from(&data, accounts).unwrap();
    m.process(RENT_ESCROW, RENT_TOKACCT).unwrap();
    m
}

/// Build a Take over the slots a Make left behind.
fn flow_take_after_make(m: &EscrowTokMake) -> (Vec<Account>, Vec<u8>) {
    let taker_key = flow_addr(4);
    let accounts = vec![
        flow_wallet(taker_key, 1_000_000_000, true),
        flow_empty_slot(flow_addr(20)),
        flow_ata(flow_addr(21), &m.mint_y.key, &taker_key, 100),
        flow_clone(&m.escrow_ata_x),
        flow_empty_slot(flow_addr(22)),
        flow_clone(&m.mint_x),
        flow_clone(&m.mint_y),
        flow_clone(&m.escrow_pda),
        flow_config_slot(),
        flow_program(TOKEN_PROGRAM_ID),
        flow_program(SYSTEM_PROGRAM_ID),
        flow_program(ATA_PROGRAM_ID),
    ];
    let data = flow_payload(6, 500, 9, 10, 7);
    (accounts, data)
}

fn flow_config_slot() -> Account {
    Account {
        key: flow_addr(30),
        lamports: 1,
        data: vec![0u8; 8],
        owner: PROGRAM_ID,
        is_signer: false,
        is_writable: true,
        executable: false,
    }
}

fn flow_clone(a: &Account) -> Account {
    Account {
        key: a.key,
        lamports: a.lamports,
        data: a.data.clone(),
        owner: a.owner,
        is_signer: a.is_signer,
        is_writable: a.is_writable,
        executable: a.executable,
    }
}

#[test]
fn test_make_offer_succeeds() {
    let m = flow_make();
    // the vault holds the locked X, the maker paid it, and the record exists
    assert_eq!(ta_amount(&m.escrow_ata_x.data), 500);
    assert_eq!(ta_amount(&m.maker_ata_x.data), 500);
    assert_eq!(m.escrow_pda.data.len(), escrow_core::state::ESCROW_LEN);
}

#[test]
fn make_records_exact_offer() {
    let m = flow_make();
    let rec = escrow_core::state::Escrow::load(&m.escrow_pda).unwrap();
    assert_eq!(rec.maker, flow_addr(1));
    assert_eq!(rec.mint_x, flow_addr(2));
    assert_eq!(rec.mint_y, flow_addr(3));
    assert_eq!(rec.amount_x, 500);
    assert_eq!(rec.amount_y, 10);
    assert_eq!(rec.id, 7);
    assert_eq!(rec.decimal_x, 6);
    assert_eq!(rec.decimal_y, 9);
}

#[test]
fn make_duplicate_offer_refused() {
    let m = flow_make();
    let accounts = vec![
        flow_clone(&m.maker),
        flow_clone(&m.maker_ata_x),
        flow_clone(&m.escrow_ata_x),
        flow_clone(&m.mint_x),
        flow_clone(&m.mint_y),
        flow_clone(&m.escrow_pda),
        flow_program(TOKEN_PROGRAM_ID),
        flow_program(SYSTEM_PROGRAM_ID),
        flow_program(ATA_PROGRAM_ID),
    ];
    let data = flow_payload(6, 500, 9, 10, 7);
    let mut m2 = EscrowTokMake::try_from(&data, accounts).unwrap();
    assert_eq!(
        m2.process(RENT_ESCROW, RENT_TOKACCT),
        Err(MyError::EscrowAlreadyFunded)
    );
}

#[test]
fn take_settles_swap_scenario() {
    // the concrete scenario: 500 X for 10 Y, id 7, matching taker
    let m = flow_make();
    let (accounts, data) = flow_take_after_make(&m);
    let mut t = EscrowTokTake::try_from(&data, accounts, RENT_MINT).unwrap();
    let plan = t.process(RENT_TOKACCT).unwrap();
    assert!(plan.created_escrow_ata_y);
    assert!(plan.created_taker_ata_x);
    // taker holds 500 X
    assert_eq!(ta_amount(&t.taker_ata_x.data), 500);
    // the maker's vault holds 10 Y
    assert_eq!(ta_amount(&t.escrow_ata_y.data), 10);
    // taker paid 10 Y
    assert_eq!(ta_amount(&t.taker_ata_y.data), 90);
    // the vault's X is drained
    assert_eq!(ta_amount(&t.escrow_ata_x.data), 0);
    // the escrow record no longer exists
    assert_eq!(t.escrow_pda.data.len(), 0);
    assert_eq!(t.escrow_pda.lamports, 0);
}

#[test]
fn take_conserves_totals() {
    let m = flow_make();
    let (accounts, data) = flow_take_after_make(&m);
    let before_y = ta_amount(&accounts[2].data); // taker Y
    let before_x = ta_amount(&accounts[3].data); // vault X
    let mut t = EscrowTokTake::try_from(&data, accounts, RENT_MINT).unwrap();
    t.process(RENT_TOKACCT).unwrap();
    let after_y = ta_amount(&t.taker_ata_y.data) + ta_amount(&t.escrow_ata_y.data);
    let after_x = ta_amount(&t.escrow_ata_x.data) + ta_amount(&t.taker_ata_x.data);
    assert_eq!(after_y, before_y);
    assert_eq!(after_x, before_x);
}

#[test]
fn take_wrong_amount_fails_with_field_error_and_no_change() {
    let m = flow_make();
    let (accounts, data) = flow_take_after_make(&m);
    let mut wrong = data.clone();
    // amount_x bytes start right after the decimal byte
    wrong[1..9].copy_from_slice(&400u64.to_le_bytes());
    let mut t = EscrowTokTake::try_from(&wrong, accounts, RENT_MINT).unwrap();
    let before_vault_x = ta_amount(&t.escrow_ata_x.data);
    let before_taker_y = ta_amount(&t.taker_ata_y.data);
    assert_eq!(t.process(RENT_TOKACCT), Err(MyError::InputAmountX));
    assert_eq!(ta_amount(&t.escrow_ata_x.data), before_vault_x);
    assert_eq!(ta_amount(&t.taker_ata_y.data), before_taker_y);
    assert_eq!(t.escrow_pda.data.len(), escrow_core::state::ESCROW_LEN);
}

#[test]
fn take_wrong_amount_y_fails() {
    let m = flow_make();
    let (accounts, data) = flow_take_after_make(&m);
    let mut wrong = data.clone();
    wrong[10..18].copy_from_slice(&11u64.to_le_bytes());
    let mut t = EscrowTokTake::try_from(&wrong, accounts, RENT_MINT).unwrap();
    assert_eq!(t.process(RENT_TOKACCT), Err(MyError::InputAmountY));
}

#[test]
fn take_wrong_id_fails() {
    let m = flow_make();
    let (accounts, data) = flow_take_after_make(&m);
    let mut wrong = data.clone();
    wrong[18..26].copy_from_slice(&8u64.to_le_bytes());
    let mut t = EscrowTokTake::try_from(&wrong, accounts, RENT_MINT).unwrap();
    assert_eq!(t.process(RENT_TOKACCT), Err(MyError::EscrowId));
}

#[test]
fn take_on_empty_escrow_fails() {
    let m = flow_make();
    let (mut accounts, data) = flow_take_after_make(&m);
    accounts[7].data = Vec::new();
    assert_eq!(
        EscrowTokTake::try_from(&data, accounts, RENT_MINT).err(),
        Some(MyError::EscrowDataEmpty)
    );
}

#[test]
fn take_insufficient_vault_x_fails() {
    let m = flow_make();
    let (mut accounts, data) = flow_take_after_make(&m);
    accounts[3].data = token_account_bytes(&m.mint_x.key, &m.escrow_pda.key, 10);
    assert_eq!(
        EscrowTokTake::try_from(&data, accounts, RENT_MINT).err(),
        Some(MyError::EscrowInsuffTokenX)
    );
}

#[test]
fn take_insufficient_taker_y_fails() {
    let m = flow_make();
    let (mut accounts, data) = flow_take_after_make(&m);
    let taker_key = flow_addr(4);
    accounts[2].data = token_account_bytes(&m.mint_y.key, &taker_key, 5);
    assert_eq!(
        EscrowTokTake::try_from(&data, accounts, RENT_MINT).err(),
        Some(MyError::TakerInsuffTokenY)
    );
}

fn flow_cancel_after_make(m: &EscrowTokMake) -> Vec<Account> {
    vec![
        flow_clone(&m.maker),
        flow_clone(&m.maker_ata_x),
        flow_empty_slot(flow_addr(23)),
        flow_clone(&m.escrow_ata_x),
        flow_empty_slot(flow_addr(24)),
        flow_clone(&m.mint_x),
        flow_clone(&m.mint_y),
        flow_clone(&m.escrow_pda),
        flow_config_slot(),
        flow_program(TOKEN_PROGRAM_ID),
        flow_program(SYSTEM_PROGRAM_ID),
        flow_program(ATA_PROGRAM_ID),
    ]
}

#[test]
fn cancel_returns_all_locked_x_and_releases_slot() {
    let m = flow_make();
    let accounts = flow_cancel_after_make(&m);
    let maker_x_before = ta_amount(&m.maker_ata_x.data);
    let mut c = EscrowTokCancel::try_from(&[], accounts, RENT_MINT).unwrap();
    let plan = c.process(RENT_TOKACCT).unwrap();
    assert_eq!(plan.swept_y, 0);
    assert!(!plan.closed_escrow_ata_y);
    // 100% of the locked X came back
    assert_eq!(ta_amount(&c.maker_ata_x.data), maker_x_before + 500);
    // the escrow slot is released
    assert_eq!(c.escrow_pda.data.len(), 0);
    assert_eq!(c.escrow_pda.lamports, 0);
    assert_eq!(c.escrow_ata_x.data.len(), 0);
}

#[test]
fn cancel_by_non_maker_fails() {
    let m = flow_make();
    let mut accounts = flow_cancel_after_make(&m);
    accounts[0] = flow_wallet(flow_addr(9), 1_000_000_000, true);
    let mut c = EscrowTokCancel::try_from(&[], accounts, RENT_MINT).unwrap();
    assert_eq!(c.process(RENT_TOKACCT), Err(MyError::OnlyMaker));
}

#[test]
fn cancel_refused_when_y_already_delivered() {
    let m = flow_make();
    let mut accounts = flow_cancel_after_make(&m);
    // the Y-side vault already holds the full wanted amount: in-flight Take
    accounts[4] = flow_ata(flow_addr(24), &m.mint_y.key, &m.escrow_pda.key, 10);
    let mut c = EscrowTokCancel::try_from(&[], accounts, RENT_MINT).unwrap();
    assert_eq!(c.process(RENT_TOKACCT), Err(MyError::MakerToWithdrawTokenY));
    // and nothing changed
    assert_eq!(c.escrow_pda.data.len(), escrow_core::state::ESCROW_LEN);
}

#[test]
fn cancel_sweeps_smaller_stray_y() {
    let m = flow_make();
    let mut accounts = flow_cancel_after_make(&m);
    accounts[4] = flow_ata(flow_addr(24), &m.mint_y.key, &m.escrow_pda.key, 3);
    let mut c = EscrowTokCancel::try_from(&[], accounts, RENT_MINT).unwrap();
    let plan = c.process(RENT_TOKACCT).unwrap();
    assert_eq!(plan.swept_y, 3);
    assert!(plan.closed_escrow_ata_y);
    assert_eq!(ta_amount(&c.maker_ata_y.data), 3);
}

#[test]
fn cancel_wrong_mint_fails() {
    let m = flow_make();
    let mut accounts = flow_cancel_after_make(&m);
    let other = flow_mint(flow_addr(40), 6);
    accounts[5] = other;
    // the escrow vault account no longer matches the presented mint
    assert_eq!(
        EscrowTokCancel::try_from(&[], accounts, RENT_MINT).err(),
        Some(MyError::AtaOrMint)
    );
}

#[test]
fn ensure_exists_twice_creates_once() {
    let wallet = flow_addr(1);
    let mint = flow_addr(2);
    let mut slot = flow_empty_slot(flow_addr(11));
    let first = ensure_ata(&mut slot, &wallet, &mint, RENT_TOKACCT).unwrap();
    assert!(first);
    let lamports_after = slot.lamports;
    let data_after = slot.data.clone();
    // the second ensure falls through to validation: no second creation
    let second = ensure_ata(&mut slot, &wallet, &mint, RENT_TOKACCT).unwrap();
    assert!(!second);
    assert_eq!(slot.lamports, lamports_after);
    assert_eq!(slot.data, data_after);
}

#[test]
fn make_same_mint_refused() {
    let maker_key = flow_addr(1);
    let mint_x_key = flow_addr(2);
    let (escrow_key, _) = derive_escrow_address(&maker_key, 7).unwrap();
    let accounts = vec![
        flow_wallet(maker_key, 1_000_000_000, true),
        flow_ata(flow_addr(10), &mint_x_key, &maker_key, 1_000),
        flow_empty_slot(flow_addr(11)),
        flow_mint(mint_x_key, 6),
        flow_mint(mint_x_key, 6),
        flow_empty_slot(escrow_key),
        flow_program(TOKEN_PROGRAM_ID),
        flow_program(SYSTEM_PROGRAM_ID),
        flow_program(ATA_PROGRAM_ID),
    ];
    let data = flow_payload(6, 500, 6, 10, 7);
    assert_eq!(
        EscrowTokMake::try_from(&data, accounts).err(),
        Some(MyError::EscrowSameMint)
    );
}

#[test]
fn make_zero_amount_refused() {
    let maker_key = flow_addr(1);
    let mint_x_key = flow_addr(2);
    let mint_y_key = flow_addr(3);
    let (escrow_key, _) = derive_escrow_address(&maker_key, 7).unwrap();
    let accounts = vec![
        flow_wallet(maker_key, 1_000_000_000, true),
        flow_ata(flow_addr(10), &mint_x_key, &maker_key, 1_000),
        flow_empty_slot(flow_addr(11)),
        flow_mint(mint_x_key, 6),
        flow_mint(mint_y_key, 9),
        flow_empty_slot(escrow_key),
        flow_program(TOKEN_PROGRAM_ID),
        flow_program(SYSTEM_PROGRAM_ID),
        flow_program(ATA_PROGRAM_ID),
    ];
    let data = flow_payload(6, 0, 9, 10, 7);
    assert_eq!(
        EscrowTokMake::try_from(&data, accounts).err(),
        Some(MyError::ZeroAsInput)
    );
}

#[test]
fn make_wrong_escrow_address_fails() {
    let maker_key = flow_addr(1);
    let mint_x_key = flow_addr(2);
    let mint_y_key = flow_addr(3);
    let accounts = vec![
        flow_wallet(maker_key, 1_000_000_000, true),
        flow_ata(flow_addr(10), &mint_x_key, &maker_key, 1_000),
        flow_empty_slot(flow_addr(11)),
        flow_mint(mint_x_key, 6),
        flow_mint(mint_y_key, 9),
        flow_empty_slot(flow_addr(99)),
        flow_program(TOKEN_PROGRAM_ID),
        flow_program(SYSTEM_PROGRAM_ID),
        flow_program(ATA_PROGRAM_ID),
    ];
    let data = flow_payload(6, 500, 9, 10, 7);
    let mut m = EscrowTokMake::try_from(&data, accounts).unwrap();
    assert_eq!(m.process(RENT_ESCROW, RENT_TOKACCT), Err(MyError::EscrowPDA));
}

#[test]
fn make_insufficient_maker_x_fails() {
    let maker_key = flow_addr(1);
    let mint_x_key = flow_addr(2);
    let mint_y_key = flow_addr(3);
    let (escrow_key, _) = derive_escrow_address(&maker_key, 7).unwrap();
    let accounts = vec![
        flow_wallet(maker_key, 1_000_000_000, true),
        flow_ata(flow_addr(10), &mint_x_key, &maker_key, 100),
        flow_empty_slot(flow_addr(11)),
        flow_mint(mint_x_key, 6),
        flow_mint(mint_y_key, 9),
        flow_empty_slot(escrow_key),
        flow_program(TOKEN_PROGRAM_ID),
        flow_program(SYSTEM_PROGRAM_ID),
        flow_program(ATA_PROGRAM_ID),
    ];
    let data = flow_payload(6, 500, 9, 10, 7);
    assert_eq!(
        EscrowTokMake::try_from(&data, accounts).err(),
        Some(MyError::InsufficientFundNominal)
    );
}

#[test]
fn take_not_enough_accounts() {
    let m = flow_make();
    let (mut accounts, data) = flow_take_after_make(&m);
    accounts.pop();
    assert_eq!(
        EscrowTokTake::try_from(&data, accounts, RENT_MINT).err(),
        Some(MyError::NotEnoughAccountKeys)
    );
}

#[test]
fn take_record_mint_mismatch_detected() {
    // the stored record names a different asset X than the presented pair
    let m = flow_make();
    let (accounts, data) = flow_take_after_make(&m);
    let mut t = EscrowTokTake::try_from(&data, accounts, RENT_MINT).unwrap();
    let mut rec = escrow_core::state::Escrow::load(&t.escrow_pda).unwrap();
    rec.mint_x = flow_addr(40);
    t.escrow_pda.data = rec.to_bytes();
    // the vault account for X still matches the presented mint, so the
    // cross-validation against the record is what rejects
    assert_eq!(t.process(RENT_TOKACCT), Err(MyError::EscrowMintX));
    let mut rec_y = escrow_core::state::Escrow::load(&t.escrow_pda).unwrap();
    rec_y.mint_x = flow_addr(2);
    rec_y.mint_y = flow_addr(41);
    t.escrow_pda.data = rec_y.to_bytes();
    assert_eq!(t.process(RENT_TOKACCT), Err(MyError::EscrowMintY));
}

#[test]
fn take_underfunded_vault_detected_at_settlement() {
    // the vault's X drains between validation and settlement
    let m = flow_make();
    let (accounts, data) = flow_take_after_make(&m);
    let mut t = EscrowTokTake::try_from(&data, accounts, RENT_MINT).unwrap();
    let maker_key = flow_addr(1);
    let mint_y = flow_addr(3);
    // drain the taker's Y below the wanted amount after validation
    t.taker_ata_y.data = escrow_core::account::token_account_bytes(&mint_y, &flow_addr(4), 5);
    let _ = maker_key;
    assert_eq!(t.process(RENT_TOKACCT), Err(MyError::MathUnderflow));
}

#[test]
fn escrow_load_wrong_length_names_record_length() {
    let m = flow_make();
    let mut slot = flow_clone(&m.escrow_pda);
    slot.data.truncate(10);
    assert_eq!(
        escrow_core::state::Escrow::load(&slot).err(),
        Some(MyError::PdaDataLen)
    );
    // and through Take's cross-validation path: state unchanged
    let (mut accounts, data) = flow_take_after_make(&m);
    accounts[7].data.truncate(10);
    let mut t = EscrowTokTake::try_from(&data, accounts, RENT_MINT).unwrap();
    assert_eq!(t.process(RENT_TOKACCT), Err(MyError::PdaDataLen));
    assert_eq!(t.escrow_pda.data.len(), 10);
}
