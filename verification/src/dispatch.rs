//! Instruction dispatch: a single leading byte selects the handler; the rest
//! of the payload is fixed-width per handler and parsed by that handler's
//! own validation.

use crate::errors::MyError;
use vstd::prelude::*;

verus! {

/// The instructions this program answers, as the leading payload byte
/// selects them.
#[derive(Clone, Copy, Debug, PartialEq, Eq, Structural)]
pub enum ProgramIx {
    /// 0: deposit lamports into the caller's vault.
    DepositSol,
    /// 1: withdraw lamports from the caller's vault.
    WithdrawSol,
    /// 4: mint new supply into a wallet's token account.
    TokLgcMintToken,
    /// 5: deposit tokens into a wallet's token account.
    TokLgcDeposit,
    /// 6: withdraw tokens held under the vault's derived authority.
    TokLgcWithdraw,
    /// 7: pay tokens of an allow-listed asset into the owner's vault.
    TokLgcPay,
    /// 8: redeem tokens of an allow-listed asset out of the owner's vault.
    TokLgcRedeem,
    /// 12: create and populate the per-owner config record.
    InitConfig,
    /// 14: close the config record and sweep its balance.
    CloseConfigPda,
    /// 15: lock an offer of asset X against wanted asset Y.
    EscrowTokMake,
    /// 16: settle an offer atomically.
    EscrowTokTake,
    /// 18: cancel an offer and return the locked assets.
    EscrowTokCancel,
    /// 19: resize the config record to a new length.
    ConfigResize,
    /// 20: mutate one config field group.
    Config2Update,
    /// 21: read an oracle price feed.
    OraclesRead,
}

/// What `parse_ix` answers: the selected handler, or the exact refusal.
pub open spec fn spec_parse_ix(data: Seq<u8>) -> Result<ProgramIx, MyError> {
    if data.len() == 0 {
        Err(MyError::InvalidDiscriminator)
    } else {
        match data[0] {
            0u8 => Ok(ProgramIx::DepositSol),
            1u8 => Ok(ProgramIx::WithdrawSol),
            4u8 => Ok(ProgramIx::TokLgcMintToken),
            5u8 => Ok(ProgramIx::TokLgcDeposit),
            6u8 => Ok(ProgramIx::TokLgcWithdraw),
            7u8 => Ok(ProgramIx::TokLgcPay),
            8u8 => Ok(ProgramIx::TokLgcRedeem),
            12u8 => Ok(ProgramIx::InitConfig),
            14u8 => Ok(ProgramIx::CloseConfigPda),
            15u8 => Ok(ProgramIx::EscrowTokMake),
            16u8 => Ok(ProgramIx::EscrowTokTake),
            18u8 => Ok(ProgramIx::EscrowTokCancel),
            19u8 => Ok(ProgramIx::ConfigResize),
            20u8 => Ok(ProgramIx::Config2Update),
            21u8 => Ok(ProgramIx::OraclesRead),
            _ => Err(MyError::InvalidDiscriminator),
        }
    }
}

/// Read the leading byte of an instruction payload and select the handler;
/// an empty payload or an unknown discriminator is refused.
pub fn parse_ix(data: &[u8]) -> (r: Result<ProgramIx, MyError>)
    ensures
        r == spec_parse_ix(data@),
{
    if data.len() == 0 {
        return Err(MyError::InvalidDiscriminator);
    }
    match data[0] {
        0 => Ok(ProgramIx::DepositSol),
        1 => Ok(ProgramIx::WithdrawSol),
        4 => Ok(ProgramIx::TokLgcMintToken),
        5 => Ok(ProgramIx::TokLgcDeposit),
        6 => Ok(ProgramIx::TokLgcWithdraw),
        7 => Ok(ProgramIx::TokLgcPay),
        8 => Ok(ProgramIx::TokLgcRedeem),
        12 => Ok(ProgramIx::InitConfig),
        14 => Ok(ProgramIx::CloseConfigPda),
        15 => Ok(ProgramIx::EscrowTokMake),
        16 => Ok(ProgramIx::EscrowTokTake),
        18 => Ok(ProgramIx::EscrowTokCancel),
        19 => Ok(ProgramIx::ConfigResize),
        20 => Ok(ProgramIx::Config2Update),
        21 => Ok(ProgramIx::OraclesRead),
        _ => Err(MyError::InvalidDiscriminator),
    }
}

impl ProgramIx {
    /// The leading byte that selects this handler.
    pub fn discriminator(self) -> (r: u8)
        ensures
            spec_parse_ix(seq![r]) == Ok::<ProgramIx, MyError>(self),
    {
        match self {
            ProgramIx::DepositSol => 0,
            ProgramIx::WithdrawSol => 1,
            ProgramIx::TokLgcMintToken => 4,
            ProgramIx::TokLgcDeposit => 5,
            ProgramIx::TokLgcWithdraw => 6,
            ProgramIx::TokLgcPay => 7,
            ProgramIx::TokLgcRedeem => 8,
            ProgramIx::InitConfig => 12,
            ProgramIx::CloseConfigPda => 14,
            ProgramIx::EscrowTokMake => 15,
            ProgramIx::EscrowTokTake => 16,
            ProgramIx::EscrowTokCancel => 18,
            ProgramIx::ConfigResize => 19,
            ProgramIx::Config2Update => 20,
            ProgramIx::OraclesRead => 21,
        }
    }
}

} // verus!
