//! Payload parsing, the error enumeration's wire codes and names, and the
//! record byte codecs.

use escrow_core::config::{Config2, CONFIG_LEN};
use escrow_core::errors::MyError;
use escrow_core::parse::{
    check_data_len, check_decimals_max, check_str_len, max_data_len, min_data_len, none_zero_u64,
    parse_u32, parse_u64, read_u32_le, read_u64_le, to32bytes, u8_slice_to_array, u8_to_bool,
};
use escrow_core::state::{u8_to_status, Escrow, StatusEnum, ESCROW_LEN};

#[test]
fn parse_u64_exact_value() {
    let bytes = 123_456_789_012u64.to_le_bytes();
    assert_eq!(parse_u64(&bytes), Ok(123_456_789_012));
}

#[test]
fn parse_u64_rejects_zero_and_wrong_length() {
    assert_eq!(parse_u64(&0u64.to_le_bytes()), Err(MyError::ZeroAsInput));
    assert_eq!(parse_u64(&[1, 2, 3]), Err(MyError::U64ByteSizeInvalid));
    assert_eq!(parse_u64(&[1; 9]), Err(MyError::U64ByteSizeInvalid));
}

#[test]
fn parse_u32_exact_value() {
    assert_eq!(parse_u32(&305_419_896u32.to_le_bytes()), Ok(305_419_896));
    assert_eq!(parse_u32(&0u32.to_le_bytes()), Err(MyError::ZeroAsInput));
    assert_eq!(parse_u32(&[1, 2]), Err(MyError::U32ByteSizeInvalid));
}

#[test]
fn read_le_helpers_exact() {
    let mut d = vec![0u8; 20];
    d[4..12].copy_from_slice(&7_000_000_001u64.to_le_bytes());
    d[12..16].copy_from_slice(&65_537u32.to_le_bytes());
    assert_eq!(read_u64_le(&d, 4), 7_000_000_001);
    assert_eq!(read_u32_le(&d, 12), 65_537);
}

#[test]
fn bool_byte_parsing() {
    assert_eq!(u8_to_bool(0), Ok(false));
    assert_eq!(u8_to_bool(1), Ok(true));
    assert_eq!(u8_to_bool(2), Err(MyError::InputU8InvalidForBool));
}

#[test]
fn array_copy_checks_length() {
    let long = [5u8; 32];
    assert_eq!(u8_slice_to_array(&long), Ok([5u8; 32]));
    assert_eq!(
        u8_slice_to_array(&[5u8; 31]),
        Err(MyError::InputStrSliceOverMax)
    );
    assert_eq!(to32bytes(&long), Ok([5u8; 32]));
}

#[test]
fn length_guards() {
    assert_eq!(min_data_len(&[1, 2], 3), Err(MyError::InputDataLen));
    assert_eq!(min_data_len(&[1, 2, 3], 3), Ok(()));
    assert_eq!(max_data_len(&[1, 2, 3], 2), Err(MyError::InputDataOverMax));
    assert_eq!(max_data_len(&[1, 2], 2), Ok(()));
    assert_eq!(check_data_len(&[1, 2], 2), Ok(()));
    assert_eq!(check_data_len(&[1, 2], 3), Err(MyError::InputDataLen));
}

#[test]
fn string_length_guard() {
    assert_eq!(check_str_len("abc", 1, 5), Ok(()));
    assert_eq!(check_str_len("", 1, 5), Err(MyError::StrUnderMin));
    assert_eq!(check_str_len("abcdef", 1, 5), Err(MyError::StrOverMax));
}

#[test]
fn decimals_max_guard() {
    assert_eq!(check_decimals_max(9, 9), Ok(()));
    assert_eq!(check_decimals_max(10, 9), Err(MyError::DecimalsValue));
}

#[test]
fn zero_amount_guard() {
    assert_eq!(none_zero_u64(0), Err(MyError::ZeroAsInput));
    assert_eq!(none_zero_u64(1), Ok(()));
}

#[test]
fn error_codes_round_trip() {
    for code in 0u32..=79 {
        let e = MyError::try_from(code).unwrap();
        assert_eq!(e.code(), code);
    }
    assert_eq!(MyError::try_from(100), Err(MyError::ErrorValue));
}

#[test]
fn error_names_match_variants() {
    assert_eq!(MyError::NotSigner.to_str(), "NotSigner");
    assert_eq!(MyError::EscrowDataEmpty.to_str(), "EscrowDataEmpty");
    assert_eq!(MyError::MathOverflow.to_str(), "MathOverflow");
    assert_eq!(MyError::ErrorValue.to_str(), "ErrorValue");
}

#[test]
fn error_specific_codes() {
    assert_eq!(MyError::InvalidDiscriminator.code(), 0);
    assert_eq!(MyError::NotSigner.code(), 1);
    assert_eq!(MyError::ToWallet.code(), 46);
    assert_eq!(MyError::ErrorValue.code(), 47);
}

#[test]
fn status_byte_round_trip() {
    assert_eq!(u8_to_status(0), Ok(StatusEnum::Waiting));
    assert_eq!(u8_to_status(1), Ok(StatusEnum::Active));
    assert_eq!(u8_to_status(2), Ok(StatusEnum::Expired));
    assert_eq!(u8_to_status(3), Ok(StatusEnum::Paused));
    assert_eq!(u8_to_status(4), Ok(StatusEnum::Canceled));
    assert_eq!(u8_to_status(5), Err(MyError::InputStatus));
    assert_eq!(StatusEnum::from(9), StatusEnum::Expired);
    assert_eq!(StatusEnum::Paused.to_u8(), 3);
}

#[test]
fn escrow_record_round_trip() {
    let rec = Escrow {
        maker: [1; 32],
        mint_x: [2; 32],
        mint_y: [3; 32],
        amount_x: 500,
        amount_y: 10,
        id: 7,
        decimal_x: 6,
        decimal_y: 9,
        bump: 254,
    };
    let bytes = rec.to_bytes();
    assert_eq!(bytes.len(), ESCROW_LEN);
    let back = Escrow::from_bytes(&bytes);
    assert_eq!(back.maker, rec.maker);
    assert_eq!(back.mint_x, rec.mint_x);
    assert_eq!(back.mint_y, rec.mint_y);
    assert_eq!(back.amount_x, rec.amount_x);
    assert_eq!(back.amount_y, rec.amount_y);
    assert_eq!(back.id, rec.id);
    assert_eq!(back.decimal_x, rec.decimal_x);
    assert_eq!(back.decimal_y, rec.decimal_y);
    assert_eq!(back.bump, rec.bump);
}

#[test]
fn config_record_round_trip() {
    let cfg = Config2 {
        mint0: [1; 32],
        mint1: [2; 32],
        mint2: [3; 32],
        mint3: [4; 32],
        vault: [5; 32],
        prog_owner: [6; 32],
        admin: [7; 32],
        str_u8array: [8; 32],
        fee: 1_000,
        sol_balance: 2_000,
        token_balance: 3_000,
        updated_at: 1_700_000_000,
        is_authorized: true,
        status: 1,
        vault_bump: 253,
        bump: 255,
        new_u32: 42,
        new_u64: 43,
        new_account1: [9; 32],
    };
    let bytes = cfg.to_bytes();
    assert_eq!(bytes.len(), CONFIG_LEN);
    let back = Config2::from_bytes(&bytes);
    assert_eq!(back.mint0, cfg.mint0);
    assert_eq!(back.mint3, cfg.mint3);
    assert_eq!(back.vault, cfg.vault);
    assert_eq!(back.prog_owner, cfg.prog_owner);
    assert_eq!(back.admin, cfg.admin);
    assert_eq!(back.str_u8array, cfg.str_u8array);
    assert_eq!(back.fee, cfg.fee);
    assert_eq!(back.sol_balance, cfg.sol_balance);
    assert_eq!(back.token_balance, cfg.token_balance);
    assert_eq!(back.updated_at, cfg.updated_at);
    assert_eq!(back.is_authorized, cfg.is_authorized);
    assert_eq!(back.status, cfg.status);
    assert_eq!(back.vault_bump, cfg.vault_bump);
    assert_eq!(back.bump, cfg.bump);
    assert_eq!(back.new_u32, cfg.new_u32);
    assert_eq!(back.new_u64, cfg.new_u64);
    assert_eq!(back.new_account1, cfg.new_account1);
}

#[test]
fn config_getters_and_setters() {
    let mut cfg = Config2::from_bytes(&vec![0u8; CONFIG_LEN]);
    assert_eq!(cfg.fee(), 0);
    cfg.set_fee(77).unwrap();
    assert_eq!(cfg.fee(), 77);
    assert_eq!(cfg.set_fee(0), Err(MyError::ZeroAsInput));
    assert_eq!(cfg.fee(), 77);
    cfg.set_admin(&[3; 32]);
    assert_eq!(cfg.admin(), &[3; 32]);
    cfg.set_status(4);
    assert_eq!(cfg.status(), StatusEnum::Canceled);
    cfg.set_mints(&[[1; 32], [2; 32], [3; 32], [4; 32]]);
    assert_eq!(cfg.mints()[2], [3; 32]);
    cfg.set_is_authorized(true);
    assert!(cfg.is_authorized());
    cfg.set_new_u64(99);
    assert_eq!(cfg.new_u64(), 99);
}
