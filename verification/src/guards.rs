//! The account guard layer.
//!
//! Every check is total: it takes account model(s) plus the expected shape and
//! answers success or one specific failure reason.  Handlers run every check
//! before their first mutation, so a failed check aborts with no state change.

use crate::account::{
    spec_mint_authority, spec_mint_decimals, spec_mint_has_authority, spec_ta_amount,
    spec_ta_mint, spec_ta_owner, Account, MINT_LEN, TOKEN_ACCOUNT_LEN,
};
use crate::addr::{
    addr_eq, ata_seeds, derive_ata_address, pda_derivation, ATA_PROGRAM_ID, RENT_SYSVAR_ID,
    SYSTEM_PROGRAM_ID, TOKEN_2022_PROGRAM_ID, TOKEN_PROGRAM_ID,
};
use crate::account::{mint_authority, mint_decimals, ta_amount, ta_mint, ta_owner};
use crate::errors::MyError;
use crate::PROGRAM_ID;
use vstd::prelude::*;

verus! {

/// Signer presence.
pub fn check_signer(account: &Account) -> (r: Result<(), MyError>)
    ensures
        r == if !account.is_signer {
            Err::<(), MyError>(MyError::NotSigner)
        } else {
            Ok::<(), MyError>(())
        },
{
    if !account.is_signer {
        return Err(MyError::NotSigner);
    }
    Ok(())
}

/// Writability: an account may be mutated only when declared writable.
pub fn writable(account: &Account) -> (r: Result<(), MyError>)
    ensures
        r == if !account.is_writable {
            Err::<(), MyError>(MyError::NotWritable)
        } else {
            Ok::<(), MyError>(())
        },
{
    if !account.is_writable {
        return Err(MyError::NotWritable);
    }
    Ok(())
}

/// A program account must be executable.
pub fn executable(account: &Account) -> (r: Result<(), MyError>)
    ensures
        r == if !account.executable {
            Err::<(), MyError>(MyError::NotExecutable)
        } else {
            Ok::<(), MyError>(())
        },
{
    if !account.executable {
        return Err(MyError::NotExecutable);
    }
    Ok(())
}

/// A slot about to be created must hold no balance yet.
pub fn empty_lamport(account: &Account) -> (r: Result<(), MyError>)
    ensures
        r == if account.lamports == 0 {
            Ok::<(), MyError>(())
        } else {
            Err::<(), MyError>(MyError::AccountAlreadyInitialized)
        },
{
    if account.lamports == 0 {
        return Ok(());
    }
    Err(MyError::AccountAlreadyInitialized)
}

/// A slot about to be created must hold no payload yet.
pub fn empty_data(account: &Account) -> (r: Result<(), MyError>)
    ensures
        r == if account.data@.len() == 0 {
            Ok::<(), MyError>(())
        } else {
            Err::<(), MyError>(MyError::EmptyData)
        },
{
    if account.data.len() == 0 {
        return Ok(());
    }
    Err(MyError::EmptyData)
}

/// What `check_pda` answers: the slot must be funded and owned by this
/// program.
pub open spec fn spec_check_pda(account: Account) -> Result<(), MyError> {
    if account.lamports == 0 {
        Err(MyError::PdaNotInitialized)
    } else if account.owner@ != PROGRAM_ID@ {
        Err(MyError::ForeignPDA)
    } else {
        Ok(())
    }
}

/// A record slot must be funded and declared as owned by this program.
pub fn check_pda(account: &Account) -> (r: Result<(), MyError>)
    ensures
        r == spec_check_pda(*account),
{
    if account.lamports == 0 {
        return Err(MyError::PdaNotInitialized);
    }
    if !addr_eq(&account.owner, &PROGRAM_ID) {
        return Err(MyError::ForeignPDA);
    }
    Ok(())
}

/// The system-program account must be the real system program.
pub fn check_sysprog(system_program: &Account) -> (r: Result<(), MyError>)
    ensures
        r == if system_program.key@ != SYSTEM_PROGRAM_ID@ {
            Err::<(), MyError>(MyError::SystemProgram)
        } else {
            Ok::<(), MyError>(())
        },
{
    if !addr_eq(&system_program.key, &SYSTEM_PROGRAM_ID) {
        return Err(MyError::SystemProgram);
    }
    Ok(())
}

/// The associated-account program handed in must be the real one.
pub fn check_atoken_gpvbd(atoken_program: &Account) -> (r: Result<(), MyError>)
    ensures
        r == if atoken_program.key@ != ATA_PROGRAM_ID@ {
            Err::<(), MyError>(MyError::AtaCheckFailed)
        } else {
            Ok::<(), MyError>(())
        },
{
    if !addr_eq(&atoken_program.key, &ATA_PROGRAM_ID) {
        return Err(MyError::AtaCheckFailed);
    }
    Ok(())
}

/// The minimum-retention oracle account must be the well-known one.
pub fn check_rent_sysvar(rent_sysvar: &Account) -> (r: Result<(), MyError>)
    ensures
        r == if rent_sysvar.key@ != RENT_SYSVAR_ID@ {
            Err::<(), MyError>(MyError::SystemProgram)
        } else {
            Ok::<(), MyError>(())
        },
{
    if !addr_eq(&rent_sysvar.key, &RENT_SYSVAR_ID) {
        return Err(MyError::SystemProgram);
    }
    Ok(())
}

/// What `check_mint0a` answers: shape and ownership of a legacy mint.
pub open spec fn spec_check_mint0a(mint: Account, token_program: Account) -> Result<(), MyError> {
    if mint.data@.len() != MINT_LEN {
        Err(MyError::MintDataLen)
    } else if token_program.key@ != TOKEN_PROGRAM_ID@ {
        Err(MyError::TokenProgram)
    } else if mint.owner@ != TOKEN_PROGRAM_ID@ {
        Err(MyError::MintOrTokenProgram)
    } else {
        Ok(())
    }
}

/// A mint must have the fixed mint length and be owned by the
/// token-accounting program, and the token-program account presented must be
/// that program.
pub fn check_mint0a(mint: &Account, token_program: &Account) -> (r: Result<(), MyError>)
    ensures
        r == spec_check_mint0a(*mint, *token_program),
{
    if mint.data.len() != MINT_LEN {
        return Err(MyError::MintDataLen);
    }
    if !addr_eq(&token_program.key, &TOKEN_PROGRAM_ID) {
        return Err(MyError::TokenProgram);
    }
    if !addr_eq(&mint.owner, &TOKEN_PROGRAM_ID) {
        return Err(MyError::MintOrTokenProgram);
    }
    Ok(())
}

/// What `check_mint0b` answers: `check_mint0a` plus authority and decimals.
pub open spec fn spec_check_mint0b(
    mint: Account,
    mint_authority_key: Seq<u8>,
    token_program: Account,
    decimals: u8,
) -> Result<(), MyError> {
    if mint.data@.len() != MINT_LEN {
        Err(MyError::InvalidAccountData)
    } else if mint.owner@ != TOKEN_PROGRAM_ID@ {
        Err(MyError::InvalidAccountData)
    } else if spec_mint_has_authority(mint.data@) && spec_mint_authority(mint.data@)
        != mint_authority_key {
        Err(MyError::MintOrMintAuthority)
    } else if decimals != spec_mint_decimals(mint.data@) {
        Err(MyError::DecimalsValue)
    } else {
        spec_check_mint0a(mint, token_program)
    }
}

/// A mint's recorded authority and decimals must match the expectation, on
/// top of the shape checks of `check_mint0a`.
pub fn check_mint0b(
    mint: &Account,
    mint_authority_acct: &Account,
    token_program: &Account,
    decimals: u8,
) -> (r: Result<(), MyError>)
    ensures
        r == spec_check_mint0b(*mint, mint_authority_acct.key@, *token_program, decimals),
{
    if mint.data.len() != MINT_LEN {
        return Err(MyError::InvalidAccountData);
    }
    if !addr_eq(&mint.owner, &TOKEN_PROGRAM_ID) {
        return Err(MyError::InvalidAccountData);
    }
    match mint_authority(&mint.data) {
        Some(auth) => {
            if !addr_eq(&mint_authority_acct.key, &auth) {
                return Err(MyError::MintOrMintAuthority);
            }
        },
        None => {},
    }
    if decimals != mint_decimals(&mint.data) {
        return Err(MyError::DecimalsValue);
    }
    check_mint0a(mint, token_program)
}

/// What `check_decimals` answers: load the mint, compare its decimals.
pub open spec fn spec_check_decimals(mint: Account, decimals: u8) -> Result<(), MyError> {
    if mint.data@.len() != MINT_LEN {
        Err(MyError::InvalidAccountData)
    } else if mint.owner@ != TOKEN_PROGRAM_ID@ {
        Err(MyError::InvalidAccountData)
    } else if decimals != spec_mint_decimals(mint.data@) {
        Err(MyError::DecimalsValue)
    } else {
        Ok(())
    }
}

/// A caller-supplied decimals value must equal the one the mint records.
pub fn check_decimals(mint: &Account, decimals: u8) -> (r: Result<(), MyError>)
    ensures
        r == spec_check_decimals(*mint, decimals),
{
    if mint.data.len() != MINT_LEN {
        return Err(MyError::InvalidAccountData);
    }
    if !addr_eq(&mint.owner, &TOKEN_PROGRAM_ID) {
        return Err(MyError::InvalidAccountData);
    }
    if decimals != mint_decimals(&mint.data) {
        return Err(MyError::DecimalsValue);
    }
    Ok(())
}

/// What `check_ata` answers: shape, recorded wallet, and recorded mint of a
/// token-holding account.
pub open spec fn spec_check_ata(ata: Account, owner: Seq<u8>, mint: Seq<u8>) -> Result<
    (),
    MyError,
> {
    if ata.data@.len() != TOKEN_ACCOUNT_LEN {
        Err(MyError::TokAcctDataLen)
    } else if ata.owner@ != TOKEN_PROGRAM_ID@ {
        Err(MyError::InvalidAccountData)
    } else if spec_ta_owner(ata.data@) != owner {
        Err(MyError::AtaOrOwner)
    } else if spec_ta_mint(ata.data@) != mint {
        Err(MyError::AtaOrMint)
    } else {
        Ok(())
    }
}

/// A token account must have the fixed length, be owned by the
/// token-accounting program, and record the expected wallet and mint.
pub fn check_ata(ata: &Account, owner: &Account, mint: &Account) -> (r: Result<(), MyError>)
    ensures
        r == spec_check_ata(*ata, owner.key@, mint.key@),
{
    check_ata_keys(ata, &owner.key, &mint.key)
}

/// `check_ata` against bare expected addresses.
pub fn check_ata_keys(ata: &Account, owner: &[u8; 32], mint: &[u8; 32]) -> (r: Result<
    (),
    MyError,
>)
    ensures
        r == spec_check_ata(*ata, owner@, mint@),
{
    if ata.data.len() != TOKEN_ACCOUNT_LEN {
        return Err(MyError::TokAcctDataLen);
    }
    if !addr_eq(&ata.owner, &TOKEN_PROGRAM_ID) {
        return Err(MyError::InvalidAccountData);
    }
    let recorded_owner = ta_owner(&ata.data);
    if !addr_eq(&recorded_owner, owner) {
        return Err(MyError::AtaOrOwner);
    }
    let recorded_mint = ta_mint(&ata.data);
    if !addr_eq(&recorded_mint, mint) {
        return Err(MyError::AtaOrMint);
    }
    Ok(())
}

/// What `check_ata_x` answers: the presented token account must sit at the
/// canonically derived associated address.
pub open spec fn spec_check_ata_x(
    authority: Seq<u8>,
    token_program: Seq<u8>,
    mint: Seq<u8>,
    ata: Seq<u8>,
) -> Result<(), MyError> {
    match pda_derivation(ata_seeds(authority, token_program, mint), ATA_PROGRAM_ID@) {
        Some(p) => if p.0 != ata {
            Err(MyError::AtaCheckFailed)
        } else {
            Ok(())
        },
        None => Err(MyError::InvalidSeeds),
    }
}

/// Re-derive the associated token account address and compare it with the
/// presented account's address.
pub fn check_ata_x(
    authority: &Account,
    token_program: &Account,
    mint: &Account,
    ata: &Account,
) -> (r: Result<(), MyError>)
    ensures
        r == spec_check_ata_x(authority.key@, token_program.key@, mint.key@, ata.key@),
{
    let derived = derive_ata_address(&authority.key, &token_program.key, &mint.key)?;
    if !addr_eq(&derived.0, &ata.key) {
        return Err(MyError::AtaCheckFailed);
    }
    Ok(())
}

/// The presented vault account must sit at the expected derived address.
pub fn check_vault(vault: &Account, expected: &[u8; 32]) -> (r: Result<(), MyError>)
    ensures
        r == if vault.key@ != expected@ {
            Err::<(), MyError>(MyError::VaultPDA)
        } else {
            Ok::<(), MyError>(())
        },
{
    if !addr_eq(&vault.key, expected) {
        return Err(MyError::VaultPDA);
    }
    Ok(())
}

/// The two sides of a swap must be different assets.
pub fn check_escrow_mints(mint_x: &Account, mint_y: &Account) -> (r: Result<(), MyError>)
    ensures
        r == if mint_x.key@ == mint_y.key@ {
            Err::<(), MyError>(MyError::EscrowSameMint)
        } else {
            Ok::<(), MyError>(())
        },
{
    if addr_eq(&mint_x.key, &mint_y.key) {
        return Err(MyError::EscrowSameMint);
    }
    Ok(())
}

/// A mint must retain at least the minimum balance the rent oracle demands
/// for its length.
pub fn rent_exempt_mint(mint: &Account, min_balance: u64) -> (r: Result<(), MyError>)
    ensures
        r == if mint.lamports < min_balance {
            Err::<(), MyError>(MyError::NotRentExamptMint22)
        } else {
            Ok::<(), MyError>(())
        },
{
    if mint.lamports < min_balance {
        return Err(MyError::NotRentExamptMint22);
    }
    Ok(())
}

/// A token account must retain at least the minimum balance the rent oracle
/// demands for its length.
pub fn rent_exempt_tokacct(ata: &Account, min_balance: u64) -> (r: Result<(), MyError>)
    ensures
        r == if ata.lamports < min_balance {
            Err::<(), MyError>(MyError::NotRentExamptTokAcct22)
        } else {
            Ok::<(), MyError>(())
        },
{
    if ata.lamports < min_balance {
        return Err(MyError::NotRentExamptTokAcct22);
    }
    Ok(())
}

/// What `rent_exempt` answers for each account kind (0: mint, 1: token
/// account); the minimum balances come from the rent oracle.
pub open spec fn spec_rent_exempt(
    account: Account,
    acc_type: u8,
    min_mint: u64,
    min_tokacct: u64,
) -> Result<(), MyError> {
    if acc_type == 0 && account.lamports < min_mint {
        Err(MyError::NotRentExamptMint22)
    } else if acc_type == 1 && account.lamports < min_tokacct {
        Err(MyError::NotRentExamptTokAcct22)
    } else if acc_type > 1 {
        Err(MyError::AcctType)
    } else {
        Ok(())
    }
}

/// Minimum-retention check for a mint (kind 0) or token account (kind 1).
pub fn rent_exempt(account: &Account, acc_type: u8, min_mint: u64, min_tokacct: u64) -> (r:
    Result<(), MyError>)
    ensures
        r == spec_rent_exempt(*account, acc_type, min_mint, min_tokacct),
{
    if acc_type == 0 && account.lamports < min_mint {
        return Err(MyError::NotRentExamptMint22);
    }
    if acc_type == 1 && account.lamports < min_tokacct {
        return Err(MyError::NotRentExamptTokAcct22);
    }
    if acc_type > 1 {
        return Err(MyError::AcctType);
    }
    Ok(())
}

/// What `ata_balc` answers: the token account must hold at least `amount`.
pub open spec fn spec_ata_balc(ata: Account, amount: u64) -> Result<(), MyError> {
    if ata.data@.len() != TOKEN_ACCOUNT_LEN {
        Err(MyError::TokAcctDataLen)
    } else if spec_ta_amount(ata.data@) < amount {
        Err(MyError::InsufficientFundNominal)
    } else {
        Ok(())
    }
}

/// A token account must hold at least the amount about to be moved.
pub fn ata_balc(ata: &Account, amount: u64) -> (r: Result<(), MyError>)
    ensures
        r == spec_ata_balc(*ata, amount),
{
    if ata.data.len() != TOKEN_ACCOUNT_LEN {
        return Err(MyError::TokAcctDataLen);
    }
    if ta_amount(&ata.data) < amount {
        return Err(MyError::InsufficientFundNominal);
    }
    Ok(())
}

/// What `check_mint_interface` answers: either token-accounting program may
/// own a mint; the newer one marks extended mints with a kind byte at the
/// fixed extension offset.
pub open spec fn spec_check_mint_interface(mint: Account) -> Result<(), MyError> {
    if mint.owner@ != TOKEN_2022_PROGRAM_ID@ {
        if mint.owner@ != TOKEN_PROGRAM_ID@ {
            Err(MyError::MintOrTokenProgram)
        } else if mint.data@.len() != MINT_LEN {
            Err(MyError::MintDataLen)
        } else {
            Ok(())
        }
    } else {
        if mint.data@.len() != MINT_LEN {
            if mint.data@.len() <= 165 {
                Err(MyError::Tok22AcctDataLen)
            } else if mint.data@[165] != 1u8 {
                Err(MyError::Tok22AcctDisciminatorOffset)
            } else {
                Ok(())
            }
        } else {
            Ok(())
        }
    }
}

/// Accept a mint from either token-accounting program, checking the shape
/// that program gives it.
pub fn check_mint_interface(mint: &Account) -> (r: Result<(), MyError>)
    ensures
        r == spec_check_mint_interface(*mint),
{
    if !addr_eq(&mint.owner, &TOKEN_2022_PROGRAM_ID) {
        if !addr_eq(&mint.owner, &TOKEN_PROGRAM_ID) {
            return Err(MyError::MintOrTokenProgram);
        }
        if mint.data.len() != MINT_LEN {
            return Err(MyError::MintDataLen);
        }
        Ok(())
    } else {
        if mint.data.len() != MINT_LEN {
            if mint.data.len() <= 165 {
                return Err(MyError::Tok22AcctDataLen);
            }
            if mint.data[165] != 1 {
                return Err(MyError::Tok22AcctDisciminatorOffset);
            }
        }
        Ok(())
    }
}

/// What `check_tokacct_interface` answers, mirroring the mint form with the
/// token-account length and kind byte.
pub open spec fn spec_check_tokacct_interface(ata: Account) -> Result<(), MyError> {
    if ata.owner@ != TOKEN_2022_PROGRAM_ID@ {
        if ata.owner@ != TOKEN_PROGRAM_ID@ {
            Err(MyError::AtaOwnerInvalid)
        } else if ata.data@.len() != TOKEN_ACCOUNT_LEN {
            Err(MyError::TokAcctDataLen)
        } else {
            Ok(())
        }
    } else {
        if ata.data@.len() != TOKEN_ACCOUNT_LEN {
            if ata.data@.len() <= 165 {
                Err(MyError::Tok22AcctDataLen)
            } else if ata.data@[165] != 2u8 {
                Err(MyError::Tok22AcctDisciminatorOffset)
            } else {
                Ok(())
            }
        } else {
            Ok(())
        }
    }
}

/// Accept a token account from either token-accounting program, checking the
/// shape that program gives it.
pub fn check_tokacct_interface(ata: &Account) -> (r: Result<(), MyError>)
    ensures
        r == spec_check_tokacct_interface(*ata),
{
    if !addr_eq(&ata.owner, &TOKEN_2022_PROGRAM_ID) {
        if !addr_eq(&ata.owner, &TOKEN_PROGRAM_ID) {
            return Err(MyError::AtaOwnerInvalid);
        }
        if ata.data.len() != TOKEN_ACCOUNT_LEN {
            return Err(MyError::TokAcctDataLen);
        }
        Ok(())
    } else {
        if ata.data.len() != TOKEN_ACCOUNT_LEN {
            if ata.data.len() <= 165 {
                return Err(MyError::Tok22AcctDataLen);
            }
            if ata.data[165] != 2 {
                return Err(MyError::Tok22AcctDisciminatorOffset);
            }
        }
        Ok(())
    }
}

} // verus!
