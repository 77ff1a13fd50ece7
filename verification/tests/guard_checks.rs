//! Each guard answers success or its one specific failure reason.

use escrow_core::account::{mint_bytes, token_account_bytes, Account};
use escrow_core::addr::{
    addr_eq, derive_ata_address, derive_pda1, ATA_PROGRAM_ID, RENT_SYSVAR_ID, SYSTEM_PROGRAM_ID,
    TOKEN_2022_PROGRAM_ID, TOKEN_PROGRAM_ID, VAULT_SEED,
};
use escrow_core::errors::MyError;
use escrow_core::guards::{
    ata_balc, check_ata_keys, check_atoken_gpvbd, check_decimals, check_escrow_mints,
    check_mint0a, check_mint0b, check_mint_interface, check_pda, check_rent_sysvar, check_signer,
    check_sysprog, check_tokacct_interface, check_vault, empty_data, empty_lamport, executable,
    rent_exempt, rent_exempt_mint, rent_exempt_tokacct, writable,
};
use escrow_core::PROGRAM_ID;

fn gd_account(key: [u8; 32]) -> Account {
    Account {
        key,
        lamports: 10,
        data: Vec::new(),
        owner: SYSTEM_PROGRAM_ID,
        is_signer: false,
        is_writable: false,
        executable: false,
    }
}

#[test]
fn signer_presence_guard() {
    let mut a = gd_account([1; 32]);
    assert_eq!(check_signer(&a), Err(MyError::NotSigner));
    a.is_signer = true;
    assert_eq!(check_signer(&a), Ok(()));
}

#[test]
fn writable_guard() {
    let mut a = gd_account([1; 32]);
    assert_eq!(writable(&a), Err(MyError::NotWritable));
    a.is_writable = true;
    assert_eq!(writable(&a), Ok(()));
}

#[test]
fn executable_guard() {
    let mut a = gd_account([1; 32]);
    assert_eq!(executable(&a), Err(MyError::NotExecutable));
    a.executable = true;
    assert_eq!(executable(&a), Ok(()));
}

#[test]
fn empty_lamport_guard() {
    let mut a = gd_account([1; 32]);
    assert_eq!(empty_lamport(&a), Err(MyError::AccountAlreadyInitialized));
    a.lamports = 0;
    assert_eq!(empty_lamport(&a), Ok(()));
}

#[test]
fn empty_data_guard() {
    let mut a = gd_account([1; 32]);
    assert_eq!(empty_data(&a), Ok(()));
    a.data = vec![1];
    assert_eq!(empty_data(&a), Err(MyError::EmptyData));
}

#[test]
fn pda_guard_funded_and_owned() {
    let mut a = gd_account([1; 32]);
    a.lamports = 0;
    assert_eq!(check_pda(&a), Err(MyError::PdaNotInitialized));
    a.lamports = 5;
    assert_eq!(check_pda(&a), Err(MyError::ForeignPDA));
    a.owner = PROGRAM_ID;
    assert_eq!(check_pda(&a), Ok(()));
}

#[test]
fn system_program_guard() {
    assert_eq!(
        check_sysprog(&gd_account([7; 32])),
        Err(MyError::SystemProgram)
    );
    assert_eq!(check_sysprog(&gd_account(SYSTEM_PROGRAM_ID)), Ok(()));
}

#[test]
fn atoken_program_guard() {
    assert_eq!(
        check_atoken_gpvbd(&gd_account([7; 32])),
        Err(MyError::AtaCheckFailed)
    );
    assert_eq!(check_atoken_gpvbd(&gd_account(ATA_PROGRAM_ID)), Ok(()));
}

#[test]
fn rent_sysvar_guard() {
    assert_eq!(
        check_rent_sysvar(&gd_account([7; 32])),
        Err(MyError::SystemProgram)
    );
    assert_eq!(check_rent_sysvar(&gd_account(RENT_SYSVAR_ID)), Ok(()));
}

fn gd_mint(decimals: u8) -> Account {
    let mut a = gd_account([2; 32]);
    a.owner = TOKEN_PROGRAM_ID;
    a.data = mint_bytes(Some(&[9; 32]), 1000, decimals);
    a
}

fn gd_token_program() -> Account {
    let mut a = gd_account(TOKEN_PROGRAM_ID);
    a.executable = true;
    a
}

#[test]
fn mint_shape_guard() {
    let mint = gd_mint(6);
    let tp = gd_token_program();
    assert_eq!(check_mint0a(&mint, &tp), Ok(()));
    let mut short = gd_mint(6);
    short.data = vec![0; 10];
    assert_eq!(check_mint0a(&short, &tp), Err(MyError::MintDataLen));
    assert_eq!(
        check_mint0a(&mint, &gd_account([7; 32])),
        Err(MyError::TokenProgram)
    );
    let mut foreign = gd_mint(6);
    foreign.owner = [8; 32];
    assert_eq!(
        check_mint0a(&foreign, &tp),
        Err(MyError::MintOrTokenProgram)
    );
}

#[test]
fn mint_authority_and_decimals_guard() {
    let mint = gd_mint(6);
    let tp = gd_token_program();
    let right_auth = gd_account([9; 32]);
    let wrong_auth = gd_account([8; 32]);
    assert_eq!(check_mint0b(&mint, &right_auth, &tp, 6), Ok(()));
    assert_eq!(
        check_mint0b(&mint, &wrong_auth, &tp, 6),
        Err(MyError::MintOrMintAuthority)
    );
    assert_eq!(
        check_mint0b(&mint, &right_auth, &tp, 9),
        Err(MyError::DecimalsValue)
    );
}

#[test]
fn decimals_guard() {
    let mint = gd_mint(6);
    assert_eq!(check_decimals(&mint, 6), Ok(()));
    assert_eq!(check_decimals(&mint, 7), Err(MyError::DecimalsValue));
}

fn gd_ata(mint: [u8; 32], owner: [u8; 32], amount: u64) -> Account {
    let mut a = gd_account([3; 32]);
    a.owner = TOKEN_PROGRAM_ID;
    a.data = token_account_bytes(&mint, &owner, amount);
    a
}

#[test]
fn token_account_shape_guard() {
    let ata = gd_ata([2; 32], [1; 32], 5);
    assert_eq!(check_ata_keys(&ata, &[1; 32], &[2; 32]), Ok(()));
    assert_eq!(
        check_ata_keys(&ata, &[4; 32], &[2; 32]),
        Err(MyError::AtaOrOwner)
    );
    assert_eq!(
        check_ata_keys(&ata, &[1; 32], &[4; 32]),
        Err(MyError::AtaOrMint)
    );
    let mut short = gd_ata([2; 32], [1; 32], 5);
    short.data = vec![0; 3];
    assert_eq!(
        check_ata_keys(&short, &[1; 32], &[2; 32]),
        Err(MyError::TokAcctDataLen)
    );
}

#[test]
fn ata_balance_guard() {
    let ata = gd_ata([2; 32], [1; 32], 5);
    assert_eq!(ata_balc(&ata, 5), Ok(()));
    assert_eq!(ata_balc(&ata, 6), Err(MyError::InsufficientFundNominal));
}

#[test]
fn vault_address_guard() {
    let v = gd_account([5; 32]);
    assert_eq!(check_vault(&v, &[5; 32]), Ok(()));
    assert_eq!(check_vault(&v, &[6; 32]), Err(MyError::VaultPDA));
}

#[test]
fn escrow_mints_guard() {
    let a = gd_account([2; 32]);
    let b = gd_account([3; 32]);
    assert_eq!(check_escrow_mints(&a, &b), Ok(()));
    assert_eq!(
        check_escrow_mints(&a, &gd_account([2; 32])),
        Err(MyError::EscrowSameMint)
    );
}

#[test]
fn rent_guards() {
    let mut a = gd_account([1; 32]);
    a.lamports = 100;
    assert_eq!(rent_exempt_mint(&a, 50), Ok(()));
    assert_eq!(rent_exempt_mint(&a, 200), Err(MyError::NotRentExamptMint22));
    assert_eq!(rent_exempt_tokacct(&a, 100), Ok(()));
    assert_eq!(
        rent_exempt_tokacct(&a, 101),
        Err(MyError::NotRentExamptTokAcct22)
    );
    assert_eq!(rent_exempt(&a, 0, 200, 0), Err(MyError::NotRentExamptMint22));
    assert_eq!(
        rent_exempt(&a, 1, 0, 200),
        Err(MyError::NotRentExamptTokAcct22)
    );
    assert_eq!(rent_exempt(&a, 2, 0, 0), Err(MyError::AcctType));
    assert_eq!(rent_exempt(&a, 0, 50, 50), Ok(()));
}

#[test]
fn mint_interface_accepts_both_programs() {
    let legacy = gd_mint(6);
    assert_eq!(check_mint_interface(&legacy), Ok(()));
    let mut newer = gd_mint(6);
    newer.owner = TOKEN_2022_PROGRAM_ID;
    assert_eq!(check_mint_interface(&newer), Ok(()));
    let mut extended = gd_mint(6);
    extended.owner = TOKEN_2022_PROGRAM_ID;
    extended.data = vec![0; 200];
    extended.data[165] = 1;
    assert_eq!(check_mint_interface(&extended), Ok(()));
    extended.data[165] = 3;
    assert_eq!(
        check_mint_interface(&extended),
        Err(MyError::Tok22AcctDisciminatorOffset)
    );
    let mut stranger = gd_mint(6);
    stranger.owner = [9; 32];
    assert_eq!(
        check_mint_interface(&stranger),
        Err(MyError::MintOrTokenProgram)
    );
    let mut short = gd_mint(6);
    short.owner = TOKEN_2022_PROGRAM_ID;
    short.data = vec![0; 100];
    assert_eq!(check_mint_interface(&short), Err(MyError::Tok22AcctDataLen));
}

#[test]
fn tokacct_interface_accepts_both_programs() {
    let legacy = gd_ata([2; 32], [1; 32], 5);
    assert_eq!(check_tokacct_interface(&legacy), Ok(()));
    let mut stranger = gd_ata([2; 32], [1; 32], 5);
    stranger.owner = [9; 32];
    assert_eq!(
        check_tokacct_interface(&stranger),
        Err(MyError::AtaOwnerInvalid)
    );
    let mut extended = gd_ata([2; 32], [1; 32], 5);
    extended.owner = TOKEN_2022_PROGRAM_ID;
    extended.data = vec![0; 200];
    extended.data[165] = 2;
    assert_eq!(check_tokacct_interface(&extended), Ok(()));
}

#[test]
fn derivation_is_deterministic() {
    // re-deriving from the same tag and owner gives an identical pair
    let owner = [1u8; 32];
    let first = derive_pda1(&VAULT_SEED, &owner).unwrap();
    let second = derive_pda1(&VAULT_SEED, &owner).unwrap();
    assert_eq!(first.0, second.0);
    assert_eq!(first.1, second.1);
    // and the derived address is not the owner handed in
    assert!(!addr_eq(&first.0, &owner));
}

#[test]
fn derivation_depends_on_owner() {
    let a = derive_pda1(&VAULT_SEED, &[1u8; 32]).unwrap();
    let b = derive_pda1(&VAULT_SEED, &[2u8; 32]).unwrap();
    assert_ne!(a.0, b.0);
}

#[test]
fn ata_derivation_matches_itself() {
    let wallet = [1u8; 32];
    let mint = [2u8; 32];
    let first = derive_ata_address(&wallet, &TOKEN_PROGRAM_ID, &mint).unwrap();
    let second = derive_ata_address(&wallet, &TOKEN_PROGRAM_ID, &mint).unwrap();
    assert_eq!(first.0, second.0);
    assert!(!addr_eq(&first.0, &wallet));
    assert!(!addr_eq(&first.0, &mint));
}
