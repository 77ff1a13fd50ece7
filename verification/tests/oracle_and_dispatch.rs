//! The price-feed reader and the leading-byte instruction dispatch.

use escrow_core::account::Account;
use escrow_core::addr::SYSTEM_PROGRAM_ID;
use escrow_core::dispatch::{parse_ix, ProgramIx};
use escrow_core::errors::MyError;
use escrow_core::pricefeeds::{
    pyth_network, read_oracle_pda, PriceUpdateV2, MAX_PRICE_AGE, PRICE_UPDATE_LEN, PYTH_OWNER_ID,
};

/// A serialized price update: feed [7; 32], the given price, publish time.
fn oracle_bytes(price: i64, publish_time: i64, verified: bool) -> Vec<u8> {
    let mut d = vec![0u8; PRICE_UPDATE_LEN];
    d[0..8].copy_from_slice(&[0x22, 0xf1, 0x23, 0x63, 0x9d, 0x7e, 0xf4, 0xcd]);
    d[8..40].copy_from_slice(&[5; 32]); // write authority
    d[40] = if verified { 1 } else { 0 };
    d[41..73].copy_from_slice(&[7; 32]); // feed id
    d[73..81].copy_from_slice(&(price as u64).to_le_bytes());
    d[81..89].copy_from_slice(&3u64.to_le_bytes()); // conf
    d[89..93].copy_from_slice(&(-8i32 as u32).to_le_bytes()); // exponent
    d[93..101].copy_from_slice(&(publish_time as u64).to_le_bytes());
    d[101..109].copy_from_slice(&(publish_time as u64 - 1).to_le_bytes());
    d[109..117].copy_from_slice(&(price as u64 + 1).to_le_bytes()); // ema price
    d[117..125].copy_from_slice(&4u64.to_le_bytes()); // ema conf
    d[125..133].copy_from_slice(&900u64.to_le_bytes()); // posted slot
    d
}

fn oracle_account(data: Vec<u8>, owner: [u8; 32]) -> Account {
    Account {
        key: [11; 32],
        lamports: 1,
        data,
        owner,
        is_signer: false,
        is_writable: false,
        executable: false,
    }
}

#[test]
fn price_update_decodes_fields() {
    let d = oracle_bytes(123_456, 1_000, true);
    let u = PriceUpdateV2::from_account_data(&d).unwrap();
    assert_eq!(u.write_authority(), &[5; 32]);
    assert!(u.is_fully_verified());
    assert_eq!(u.price_message().feed_id(), &[7; 32]);
    assert_eq!(u.price_message().price(), 123_456);
    assert_eq!(u.price_message().conf(), 3);
    assert_eq!(u.price_message().exponent(), -8);
    assert_eq!(u.price_message().publish_time(), 1_000);
    assert_eq!(u.price_message().prev_publish_time(), 999);
    assert_eq!(u.price_message().ema_price(), 123_457);
    assert_eq!(u.price_message().ema_conf(), 4);
    assert_eq!(u.posted_slot(), 900);
}

#[test]
fn price_update_rejects_short_or_mistagged() {
    assert_eq!(
        PriceUpdateV2::from_account_data(&vec![0u8; 10]).err(),
        Some(MyError::PythPriceUpdateV2DataLen)
    );
    let mut bad = oracle_bytes(1, 1, true);
    bad[0] = 0x23;
    assert_eq!(
        PriceUpdateV2::from_account_data(&bad).err(),
        Some(MyError::PythPriceUpdateV2Discriminator)
    );
}

#[test]
fn fresh_price_is_returned_raw() {
    let pda = oracle_account(oracle_bytes(123_456, 1_000, true), PYTH_OWNER_ID);
    // now is within the allowed age window
    assert_eq!(pyth_network(&pda, &[7; 32], 1_030), Ok(123_456));
}

#[test]
fn stale_price_refused() {
    let pda = oracle_account(oracle_bytes(123_456, 1_000, true), PYTH_OWNER_ID);
    let now = 1_000 + MAX_PRICE_AGE as i64;
    assert_eq!(
        pyth_network(&pda, &[7; 32], now),
        Err(MyError::OraclePriceTooOld)
    );
}

#[test]
fn unverified_price_refused() {
    let pda = oracle_account(oracle_bytes(123_456, 1_000, false), PYTH_OWNER_ID);
    assert_eq!(
        pyth_network(&pda, &[7; 32], 1_030),
        Err(MyError::PythPriceVerification)
    );
}

#[test]
fn foreign_oracle_account_refused() {
    let pda = oracle_account(oracle_bytes(123_456, 1_000, true), SYSTEM_PROGRAM_ID);
    assert_eq!(pyth_network(&pda, &[7; 32], 1_030), Err(MyError::PythPDA));
}

#[test]
fn mismatched_feed_refused() {
    let pda = oracle_account(oracle_bytes(123_456, 1_000, true), PYTH_OWNER_ID);
    assert_eq!(
        pyth_network(&pda, &[8; 32], 1_030),
        Err(MyError::PythMismatchedFeedId)
    );
}

#[test]
fn nonpositive_price_refused() {
    let pda = oracle_account(oracle_bytes(0, 1_000, true), PYTH_OWNER_ID);
    assert_eq!(
        pyth_network(&pda, &[7; 32], 1_030),
        Err(MyError::OraclePriceInvalid)
    );
}

#[test]
fn unknown_oracle_vendor_refused() {
    let pda = oracle_account(oracle_bytes(1, 1_000, true), PYTH_OWNER_ID);
    assert_eq!(
        read_oracle_pda(2, &pda, &[7; 32], 1_030),
        Err(MyError::OracleNum)
    );
    assert_eq!(read_oracle_pda(0, &pda, &[7; 32], 1_030), Ok(1));
}

#[test]
fn dispatch_selects_each_handler() {
    assert_eq!(parse_ix(&[0]), Ok(ProgramIx::DepositSol));
    assert_eq!(parse_ix(&[1]), Ok(ProgramIx::WithdrawSol));
    assert_eq!(parse_ix(&[4]), Ok(ProgramIx::TokLgcMintToken));
    assert_eq!(parse_ix(&[5]), Ok(ProgramIx::TokLgcDeposit));
    assert_eq!(parse_ix(&[6]), Ok(ProgramIx::TokLgcWithdraw));
    assert_eq!(parse_ix(&[7]), Ok(ProgramIx::TokLgcPay));
    assert_eq!(parse_ix(&[8]), Ok(ProgramIx::TokLgcRedeem));
    assert_eq!(parse_ix(&[12]), Ok(ProgramIx::InitConfig));
    assert_eq!(parse_ix(&[14]), Ok(ProgramIx::CloseConfigPda));
    assert_eq!(parse_ix(&[15, 9, 9]), Ok(ProgramIx::EscrowTokMake));
    assert_eq!(parse_ix(&[16]), Ok(ProgramIx::EscrowTokTake));
    assert_eq!(parse_ix(&[18]), Ok(ProgramIx::EscrowTokCancel));
    assert_eq!(parse_ix(&[19]), Ok(ProgramIx::ConfigResize));
    assert_eq!(parse_ix(&[20]), Ok(ProgramIx::Config2Update));
    assert_eq!(parse_ix(&[21]), Ok(ProgramIx::OraclesRead));
}

#[test]
fn dispatch_refuses_unknown_and_empty() {
    assert_eq!(parse_ix(&[99]), Err(MyError::InvalidDiscriminator));
    assert_eq!(parse_ix(&[]), Err(MyError::InvalidDiscriminator));
}

#[test]
fn dispatch_discriminators_round_trip() {
    for ix in [
        ProgramIx::DepositSol,
        ProgramIx::WithdrawSol,
        ProgramIx::TokLgcMintToken,
        ProgramIx::TokLgcDeposit,
        ProgramIx::TokLgcWithdraw,
        ProgramIx::TokLgcPay,
        ProgramIx::TokLgcRedeem,
        ProgramIx::InitConfig,
        ProgramIx::CloseConfigPda,
        ProgramIx::EscrowTokMake,
        ProgramIx::EscrowTokTake,
        ProgramIx::EscrowTokCancel,
        ProgramIx::ConfigResize,
        ProgramIx::Config2Update,
        ProgramIx::OraclesRead,
    ] {
        assert_eq!(parse_ix(&[ix.discriminator()]), Ok(ix));
    }
}
