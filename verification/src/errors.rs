//! The closed enumeration of failure reasons.
//!
//! Every guard and every handler reports the exact invariant it found
//! violated; a failure aborts the whole instruction, so callers can rely on
//! the reason to correct and resubmit.

use vstd::prelude::*;

verus! {

/// One failure reason per violated invariant.
#[derive(Clone, Copy, Debug, PartialEq, Eq, Structural)]
pub enum MyError {
    InvalidDiscriminator,
    NotSigner,
    NotWritable,
    NotExecutable,
    ZeroAsInput,
    DecimalsValue,
    MintDataLen,
    TokAcctDataLen,
    Tok22AcctDataLen,
    TokenProgram,
    SystemProgram,
    AtaOrOwner,
    AtaOrMint,
    AtaCheckFailed,
    AtaOwnerInvalid,
    ForeignPDA,
    EmptyLamport,
    EmptyData,
    AcctType,
    StrOverMax,
    StrUnderMin,
    InputDataLen,
    PdaNotInitialized,
    ParseU64,
    Tok22AcctDisciminatorOffset,
    InputDataOverMax,
    InputStrSliceOverMax,
    InputU8InvalidForBool,
    U64ByteSizeInvalid,
    U32ByteSizeInvalid,
    U16ByteSizeInvalid,
    U8ByteSizeInvalid,
    VaultPDA,
    ConfigDataLengh,
    FunctionSelector,
    ConfigPDA,
    InputStatus,
    MathOverflow,
    MathUnderflow,
    NotRentExamptMint22,
    NotRentExamptTokAcct22,
    NotRentExamptPDA,
    MintOrMintAuthority,
    MintOrTokenProgram,
    PdaAuthority,
    InsufficientFundNominal,
    ToWallet,
    ErrorValue,
    NotEnoughAccountKeys,
    AccountAlreadyInitialized,
    IncorrectAuthority,
    ArithmeticOverflow,
    InsufficientFunds,
    InvalidAccountData,
    InvalidSeeds,
    AccountNotRentExempt,
    OnlyMaker,
    OnlyProgOwner,
    EscrowMintX,
    EscrowMintY,
    InputAmountX,
    InputAmountY,
    EscrowId,
    EscrowDataEmpty,
    EscrowInsuffTokenX,
    TakerInsuffTokenY,
    MakerToWithdrawTokenY,
    MintNotAccepted,
    EscrowAlreadyFunded,
    EscrowSameMint,
    EscrowPDA,
    OracleNum,
    PythPDA,
    PythPriceVerification,
    PythMismatchedFeedId,
    PythPriceUpdateV2DataLen,
    PythPriceUpdateV2Discriminator,
    OraclePriceInvalid,
    OraclePriceTooOld,
    PdaDataLen,
}

impl MyError {
    /// The wire code of each reason, as carried in the transaction result.
    pub open spec fn spec_code(self) -> u32 {
        match self {
            MyError::InvalidDiscriminator => 0,
            MyError::NotSigner => 1,
            MyError::NotWritable => 2,
            MyError::NotExecutable => 3,
            MyError::ZeroAsInput => 4,
            MyError::DecimalsValue => 5,
            MyError::MintDataLen => 6,
            MyError::TokAcctDataLen => 7,
            MyError::Tok22AcctDataLen => 8,
            MyError::TokenProgram => 9,
            MyError::SystemProgram => 10,
            MyError::AtaOrOwner => 11,
            MyError::AtaOrMint => 12,
            MyError::AtaCheckFailed => 13,
            MyError::AtaOwnerInvalid => 14,
            MyError::ForeignPDA => 15,
            MyError::EmptyLamport => 16,
            MyError::EmptyData => 17,
            MyError::AcctType => 18,
            MyError::StrOverMax => 19,
            MyError::StrUnderMin => 20,
            MyError::InputDataLen => 21,
            MyError::PdaNotInitialized => 22,
            MyError::ParseU64 => 23,
            MyError::Tok22AcctDisciminatorOffset => 24,
            MyError::InputDataOverMax => 25,
            MyError::InputStrSliceOverMax => 26,
            MyError::InputU8InvalidForBool => 27,
            MyError::U64ByteSizeInvalid => 28,
            MyError::U32ByteSizeInvalid => 29,
            MyError::U16ByteSizeInvalid => 30,
            MyError::U8ByteSizeInvalid => 31,
            MyError::VaultPDA => 32,
            MyError::ConfigDataLengh => 33,
            MyError::FunctionSelector => 34,
            MyError::ConfigPDA => 35,
            MyError::InputStatus => 36,
            MyError::MathOverflow => 37,
            MyError::MathUnderflow => 38,
            MyError::NotRentExamptMint22 => 39,
            MyError::NotRentExamptTokAcct22 => 40,
            MyError::NotRentExamptPDA => 41,
            MyError::MintOrMintAuthority => 42,
            MyError::MintOrTokenProgram => 43,
            MyError::PdaAuthority => 44,
            MyError::InsufficientFundNominal => 45,
            MyError::ToWallet => 46,
            MyError::ErrorValue => 47,
            MyError::NotEnoughAccountKeys => 48,
            MyError::AccountAlreadyInitialized => 49,
            MyError::IncorrectAuthority => 50,
            MyError::ArithmeticOverflow => 51,
            MyError::InsufficientFunds => 52,
            MyError::InvalidAccountData => 53,
            MyError::InvalidSeeds => 54,
            MyError::AccountNotRentExempt => 55,
            MyError::OnlyMaker => 56,
            MyError::OnlyProgOwner => 57,
            MyError::EscrowMintX => 58,
            MyError::EscrowMintY => 59,
            MyError::InputAmountX => 60,
            MyError::InputAmountY => 61,
            MyError::EscrowId => 62,
            MyError::EscrowDataEmpty => 63,
            MyError::EscrowInsuffTokenX => 64,
            MyError::TakerInsuffTokenY => 65,
            MyError::MakerToWithdrawTokenY => 66,
            MyError::MintNotAccepted => 67,
            MyError::EscrowAlreadyFunded => 68,
            MyError::EscrowSameMint => 69,
            MyError::EscrowPDA => 70,
            MyError::OracleNum => 71,
            MyError::PythPDA => 72,
            MyError::PythPriceVerification => 73,
            MyError::PythMismatchedFeedId => 74,
            MyError::PythPriceUpdateV2DataLen => 75,
            MyError::PythPriceUpdateV2Discriminator => 76,
            MyError::OraclePriceInvalid => 77,
            MyError::OraclePriceTooOld => 78,
            MyError::PdaDataLen => 79,
        }
    }

    /// The wire code of this reason.
    pub fn code(self) -> (r: u32)
        ensures
            r == self.spec_code(),
    {
        match self {
            MyError::InvalidDiscriminator => 0,
            MyError::NotSigner => 1,
            MyError::NotWritable => 2,
            MyError::NotExecutable => 3,
            MyError::ZeroAsInput => 4,
            MyError::DecimalsValue => 5,
            MyError::MintDataLen => 6,
            MyError::TokAcctDataLen => 7,
            MyError::Tok22AcctDataLen => 8,
            MyError::TokenProgram => 9,
            MyError::SystemProgram => 10,
            MyError::AtaOrOwner => 11,
            MyError::AtaOrMint => 12,
            MyError::AtaCheckFailed => 13,
            MyError::AtaOwnerInvalid => 14,
            MyError::ForeignPDA => 15,
            MyError::EmptyLamport => 16,
            MyError::EmptyData => 17,
            MyError::AcctType => 18,
            MyError::StrOverMax => 19,
            MyError::StrUnderMin => 20,
            MyError::InputDataLen => 21,
            MyError::PdaNotInitialized => 22,
            MyError::ParseU64 => 23,
            MyError::Tok22AcctDisciminatorOffset => 24,
            MyError::InputDataOverMax => 25,
            MyError::InputStrSliceOverMax => 26,
            MyError::InputU8InvalidForBool => 27,
            MyError::U64ByteSizeInvalid => 28,
            MyError::U32ByteSizeInvalid => 29,
            MyError::U16ByteSizeInvalid => 30,
            MyError::U8ByteSizeInvalid => 31,
            MyError::VaultPDA => 32,
            MyError::ConfigDataLengh => 33,
            MyError::FunctionSelector => 34,
            MyError::ConfigPDA => 35,
            MyError::InputStatus => 36,
            MyError::MathOverflow => 37,
            MyError::MathUnderflow => 38,
            MyError::NotRentExamptMint22 => 39,
            MyError::NotRentExamptTokAcct22 => 40,
            MyError::NotRentExamptPDA => 41,
            MyError::MintOrMintAuthority => 42,
            MyError::MintOrTokenProgram => 43,
            MyError::PdaAuthority => 44,
            MyError::InsufficientFundNominal => 45,
            MyError::ToWallet => 46,
            MyError::ErrorValue => 47,
            MyError::NotEnoughAccountKeys => 48,
            MyError::AccountAlreadyInitialized => 49,
            MyError::IncorrectAuthority => 50,
            MyError::ArithmeticOverflow => 51,
            MyError::InsufficientFunds => 52,
            MyError::InvalidAccountData => 53,
            MyError::InvalidSeeds => 54,
            MyError::AccountNotRentExempt => 55,
            MyError::OnlyMaker => 56,
            MyError::OnlyProgOwner => 57,
            MyError::EscrowMintX => 58,
            MyError::EscrowMintY => 59,
            MyError::InputAmountX => 60,
            MyError::InputAmountY => 61,
            MyError::EscrowId => 62,
            MyError::EscrowDataEmpty => 63,
            MyError::EscrowInsuffTokenX => 64,
            MyError::TakerInsuffTokenY => 65,
            MyError::MakerToWithdrawTokenY => 66,
            MyError::MintNotAccepted => 67,
            MyError::EscrowAlreadyFunded => 68,
            MyError::EscrowSameMint => 69,
            MyError::EscrowPDA => 70,
            MyError::OracleNum => 71,
            MyError::PythPDA => 72,
            MyError::PythPriceVerification => 73,
            MyError::PythMismatchedFeedId => 74,
            MyError::PythPriceUpdateV2DataLen => 75,
            MyError::PythPriceUpdateV2Discriminator => 76,
            MyError::OraclePriceInvalid => 77,
            MyError::OraclePriceTooOld => 78,
            MyError::PdaDataLen => 79,
        }
    }

    /// What `try_from` answers on each wire code: the reason with that code,
    /// or `ErrorValue` for a code outside the enumeration.
    pub open spec fn spec_try_from(v: u32) -> Result<MyError, MyError> {
        if exists|e: MyError| e.spec_code() == v {
            Ok(choose|e: MyError| e.spec_code() == v)
        } else {
            Err(MyError::ErrorValue)
        }
    }

    /// Deserialize a reason from its wire code.
    pub fn try_from(v: u32) -> (r: Result<MyError, MyError>)
        ensures
            r matches Ok(e) ==> e.spec_code() == v,
            r is Err ==> r == Err::<MyError, MyError>(MyError::ErrorValue)
                && !exists|e: MyError| e.spec_code() == v,
    {
        let r = match v {
            0 => Ok(MyError::InvalidDiscriminator),
            1 => Ok(MyError::NotSigner),
            2 => Ok(MyError::NotWritable),
            3 => Ok(MyError::NotExecutable),
            4 => Ok(MyError::ZeroAsInput),
            5 => Ok(MyError::DecimalsValue),
            6 => Ok(MyError::MintDataLen),
            7 => Ok(MyError::TokAcctDataLen),
            8 => Ok(MyError::Tok22AcctDataLen),
            9 => Ok(MyError::TokenProgram),
            10 => Ok(MyError::SystemProgram),
            11 => Ok(MyError::AtaOrOwner),
            12 => Ok(MyError::AtaOrMint),
            13 => Ok(MyError::AtaCheckFailed),
            14 => Ok(MyError::AtaOwnerInvalid),
            15 => Ok(MyError::ForeignPDA),
            16 => Ok(MyError::EmptyLamport),
            17 => Ok(MyError::EmptyData),
            18 => Ok(MyError::AcctType),
            19 => Ok(MyError::StrOverMax),
            20 => Ok(MyError::StrUnderMin),
            21 => Ok(MyError::InputDataLen),
            22 => Ok(MyError::PdaNotInitialized),
            23 => Ok(MyError::ParseU64),
            24 => Ok(MyError::Tok22AcctDisciminatorOffset),
            25 => Ok(MyError::InputDataOverMax),
            26 => Ok(MyError::InputStrSliceOverMax),
            27 => Ok(MyError::InputU8InvalidForBool),
            28 => Ok(MyError::U64ByteSizeInvalid),
            29 => Ok(MyError::U32ByteSizeInvalid),
            30 => Ok(MyError::U16ByteSizeInvalid),
            31 => Ok(MyError::U8ByteSizeInvalid),
            32 => Ok(MyError::VaultPDA),
            33 => Ok(MyError::ConfigDataLengh),
            34 => Ok(MyError::FunctionSelector),
            35 => Ok(MyError::ConfigPDA),
            36 => Ok(MyError::InputStatus),
            37 => Ok(MyError::MathOverflow),
            38 => Ok(MyError::MathUnderflow),
            39 => Ok(MyError::NotRentExamptMint22),
            40 => Ok(MyError::NotRentExamptTokAcct22),
            41 => Ok(MyError::NotRentExamptPDA),
            42 => Ok(MyError::MintOrMintAuthority),
            43 => Ok(MyError::MintOrTokenProgram),
            44 => Ok(MyError::PdaAuthority),
            45 => Ok(MyError::InsufficientFundNominal),
            46 => Ok(MyError::ToWallet),
            47 => Ok(MyError::ErrorValue),
            48 => Ok(MyError::NotEnoughAccountKeys),
            49 => Ok(MyError::AccountAlreadyInitialized),
            50 => Ok(MyError::IncorrectAuthority),
            51 => Ok(MyError::ArithmeticOverflow),
            52 => Ok(MyError::InsufficientFunds),
            53 => Ok(MyError::InvalidAccountData),
            54 => Ok(MyError::InvalidSeeds),
            55 => Ok(MyError::AccountNotRentExempt),
            56 => Ok(MyError::OnlyMaker),
            57 => Ok(MyError::OnlyProgOwner),
            58 => Ok(MyError::EscrowMintX),
            59 => Ok(MyError::EscrowMintY),
            60 => Ok(MyError::InputAmountX),
            61 => Ok(MyError::InputAmountY),
            62 => Ok(MyError::EscrowId),
            63 => Ok(MyError::EscrowDataEmpty),
            64 => Ok(MyError::EscrowInsuffTokenX),
            65 => Ok(MyError::TakerInsuffTokenY),
            66 => Ok(MyError::MakerToWithdrawTokenY),
            67 => Ok(MyError::MintNotAccepted),
            68 => Ok(MyError::EscrowAlreadyFunded),
            69 => Ok(MyError::EscrowSameMint),
            70 => Ok(MyError::EscrowPDA),
            71 => Ok(MyError::OracleNum),
            72 => Ok(MyError::PythPDA),
            73 => Ok(MyError::PythPriceVerification),
            74 => Ok(MyError::PythMismatchedFeedId),
            75 => Ok(MyError::PythPriceUpdateV2DataLen),
            76 => Ok(MyError::PythPriceUpdateV2Discriminator),
            77 => Ok(MyError::OraclePriceInvalid),
            78 => Ok(MyError::OraclePriceTooOld),
            79 => Ok(MyError::PdaDataLen),
            _ => Err(MyError::ErrorValue),
        };
        proof {
            if v > 79 {
                assert forall|e: MyError| e.spec_code() != v by {}
            }
        }
        r
    }

    /// The human-readable name of each reason.
    pub open spec fn spec_name(self) -> Seq<char> {
        match self {
            MyError::InvalidDiscriminator => "InvalidDiscriminator"@,
            MyError::NotSigner => "NotSigner"@,
            MyError::NotWritable => "NotWritable"@,
            MyError::NotExecutable => "NotExecutable"@,
            MyError::ZeroAsInput => "ZeroAsInput"@,
            MyError::DecimalsValue => "DecimalsValue"@,
            MyError::MintDataLen => "MintDataLen"@,
            MyError::TokAcctDataLen => "TokAcctDataLen"@,
            MyError::Tok22AcctDataLen => "Tok22AcctDataLen"@,
            MyError::TokenProgram => "TokenProgram"@,
            MyError::SystemProgram => "SystemProgram"@,
            MyError::AtaOrOwner => "AtaOrOwner"@,
            MyError::AtaOrMint => "AtaOrMint"@,
            MyError::AtaCheckFailed => "AtaCheckFailed"@,
            MyError::AtaOwnerInvalid => "AtaOwnerInvalid"@,
            MyError::ForeignPDA => "ForeignPDA"@,
            MyError::EmptyLamport => "EmptyLamport"@,
            MyError::EmptyData => "EmptyData"@,
            MyError::AcctType => "AcctType"@,
            MyError::StrOverMax => "StrOverMax"@,
            MyError::StrUnderMin => "StrUnderMin"@,
            MyError::InputDataLen => "InputDataLen"@,
            MyError::PdaNotInitialized => "PdaNotInitialized"@,
            MyError::ParseU64 => "ParseU64"@,
            MyError::Tok22AcctDisciminatorOffset => "Tok22AcctDisciminatorOffset"@,
            MyError::InputDataOverMax => "InputDataOverMax"@,
            MyError::InputStrSliceOverMax => "InputStrSliceOverMax"@,
            MyError::InputU8InvalidForBool => "InputU8InvalidForBool"@,
            MyError::U64ByteSizeInvalid => "U64ByteSizeInvalid"@,
            MyError::U32ByteSizeInvalid => "U32ByteSizeInvalid"@,
            MyError::U16ByteSizeInvalid => "U16ByteSizeInvalid"@,
            MyError::U8ByteSizeInvalid => "U8ByteSizeInvalid"@,
            MyError::VaultPDA => "VaultPDA"@,
            MyError::ConfigDataLengh => "ConfigDataLengh"@,
            MyError::FunctionSelector => "FunctionSelector"@,
            MyError::ConfigPDA => "ConfigPDA"@,
            MyError::InputStatus => "InputStatus"@,
            MyError::MathOverflow => "MathOverflow"@,
            MyError::MathUnderflow => "MathUnderflow"@,
            MyError::NotRentExamptMint22 => "NotRentExamptMint22"@,
            MyError::NotRentExamptTokAcct22 => "NotRentExamptTokAcct22"@,
            MyError::NotRentExamptPDA => "NotRentExamptPDA"@,
            MyError::MintOrMintAuthority => "MintOrMintAuthority"@,
            MyError::MintOrTokenProgram => "MintOrTokenProgram"@,
            MyError::PdaAuthority => "PdaAuthority"@,
            MyError::InsufficientFundNominal => "InsufficientFundNominal"@,
            MyError::ToWallet => "ToWallet"@,
            MyError::ErrorValue => "ErrorValue"@,
            MyError::NotEnoughAccountKeys => "NotEnoughAccountKeys"@,
            MyError::AccountAlreadyInitialized => "AccountAlreadyInitialized"@,
            MyError::IncorrectAuthority => "IncorrectAuthority"@,
            MyError::ArithmeticOverflow => "ArithmeticOverflow"@,
            MyError::InsufficientFunds => "InsufficientFunds"@,
            MyError::InvalidAccountData => "InvalidAccountData"@,
            MyError::InvalidSeeds => "InvalidSeeds"@,
            MyError::AccountNotRentExempt => "AccountNotRentExempt"@,
            MyError::OnlyMaker => "OnlyMaker"@,
            MyError::OnlyProgOwner => "OnlyProgOwner"@,
            MyError::EscrowMintX => "EscrowMintX"@,
            MyError::EscrowMintY => "EscrowMintY"@,
            MyError::InputAmountX => "InputAmountX"@,
            MyError::InputAmountY => "InputAmountY"@,
            MyError::EscrowId => "EscrowId"@,
            MyError::EscrowDataEmpty => "EscrowDataEmpty"@,
            MyError::EscrowInsuffTokenX => "EscrowInsuffTokenX"@,
            MyError::TakerInsuffTokenY => "TakerInsuffTokenY"@,
            MyError::MakerToWithdrawTokenY => "MakerToWithdrawTokenY"@,
            MyError::MintNotAccepted => "MintNotAccepted"@,
            MyError::EscrowAlreadyFunded => "EscrowAlreadyFunded"@,
            MyError::EscrowSameMint => "EscrowSameMint"@,
            MyError::EscrowPDA => "EscrowPDA"@,
            MyError::OracleNum => "OracleNum"@,
            MyError::PythPDA => "PythPDA"@,
            MyError::PythPriceVerification => "PythPriceVerification"@,
            MyError::PythMismatchedFeedId => "PythMismatchedFeedId"@,
            MyError::PythPriceUpdateV2DataLen => "PythPriceUpdateV2DataLen"@,
            MyError::PythPriceUpdateV2Discriminator => "PythPriceUpdateV2Discriminator"@,
            MyError::OraclePriceInvalid => "OraclePriceInvalid"@,
            MyError::OraclePriceTooOld => "OraclePriceTooOld"@,
            MyError::PdaDataLen => "PdaDataLen"@,
        }
    }

    /// Human-readable name of this reason.
    pub fn to_str(&self) -> (r: &'static str)
        ensures
            r@ == self.spec_name(),
    {
        match self {
            MyError::InvalidDiscriminator => "InvalidDiscriminator",
            MyError::NotSigner => "NotSigner",
            MyError::NotWritable => "NotWritable",
            MyError::NotExecutable => "NotExecutable",
            MyError::ZeroAsInput => "ZeroAsInput",
            MyError::DecimalsValue => "DecimalsValue",
            MyError::MintDataLen => "MintDataLen",
            MyError::TokAcctDataLen => "TokAcctDataLen",
            MyError::Tok22AcctDataLen => "Tok22AcctDataLen",
            MyError::TokenProgram => "TokenProgram",
            MyError::SystemProgram => "SystemProgram",
            MyError::AtaOrOwner => "AtaOrOwner",
            MyError::AtaOrMint => "AtaOrMint",
            MyError::AtaCheckFailed => "AtaCheckFailed",
            MyError::AtaOwnerInvalid => "AtaOwnerInvalid",
            MyError::ForeignPDA => "ForeignPDA",
            MyError::EmptyLamport => "EmptyLamport",
            MyError::EmptyData => "EmptyData",
            MyError::AcctType => "AcctType",
            MyError::StrOverMax => "StrOverMax",
            MyError::StrUnderMin => "StrUnderMin",
            MyError::InputDataLen => "InputDataLen",
            MyError::PdaNotInitialized => "PdaNotInitialized",
            MyError::ParseU64 => "ParseU64",
            MyError::Tok22AcctDisciminatorOffset => "Tok22AcctDisciminatorOffset",
            MyError::InputDataOverMax => "InputDataOverMax",
            MyError::InputStrSliceOverMax => "InputStrSliceOverMax",
            MyError::InputU8InvalidForBool => "InputU8InvalidForBool",
            MyError::U64ByteSizeInvalid => "U64ByteSizeInvalid",
            MyError::U32ByteSizeInvalid => "U32ByteSizeInvalid",
            MyError::U16ByteSizeInvalid => "U16ByteSizeInvalid",
            MyError::U8ByteSizeInvalid => "U8ByteSizeInvalid",
            MyError::VaultPDA => "VaultPDA",
            MyError::ConfigDataLengh => "ConfigDataLengh",
            MyError::FunctionSelector => "FunctionSelector",
            MyError::ConfigPDA => "ConfigPDA",
            MyError::InputStatus => "InputStatus",
            MyError::MathOverflow => "MathOverflow",
            MyError::MathUnderflow => "MathUnderflow",
            MyError::NotRentExamptMint22 => "NotRentExamptMint22",
            MyError::NotRentExamptTokAcct22 => "NotRentExamptTokAcct22",
            MyError::NotRentExamptPDA => "NotRentExamptPDA",
            MyError::MintOrMintAuthority => "MintOrMintAuthority",
            MyError::MintOrTokenProgram => "MintOrTokenProgram",
            MyError::PdaAuthority => "PdaAuthority",
            MyError::InsufficientFundNominal => "InsufficientFundNominal",
            MyError::ToWallet => "ToWallet",
            MyError::ErrorValue => "ErrorValue",
            MyError::NotEnoughAccountKeys => "NotEnoughAccountKeys",
            MyError::AccountAlreadyInitialized => "AccountAlreadyInitialized",
            MyError::IncorrectAuthority => "IncorrectAuthority",
            MyError::ArithmeticOverflow => "ArithmeticOverflow",
            MyError::InsufficientFunds => "InsufficientFunds",
            MyError::InvalidAccountData => "InvalidAccountData",
            MyError::InvalidSeeds => "InvalidSeeds",
            MyError::AccountNotRentExempt => "AccountNotRentExempt",
            MyError::OnlyMaker => "OnlyMaker",
            MyError::OnlyProgOwner => "OnlyProgOwner",
            MyError::EscrowMintX => "EscrowMintX",
            MyError::EscrowMintY => "EscrowMintY",
            MyError::InputAmountX => "InputAmountX",
            MyError::InputAmountY => "InputAmountY",
            MyError::EscrowId => "EscrowId",
            MyError::EscrowDataEmpty => "EscrowDataEmpty",
            MyError::EscrowInsuffTokenX => "EscrowInsuffTokenX",
            MyError::TakerInsuffTokenY => "TakerInsuffTokenY",
            MyError::MakerToWithdrawTokenY => "MakerToWithdrawTokenY",
            MyError::MintNotAccepted => "MintNotAccepted",
            MyError::EscrowAlreadyFunded => "EscrowAlreadyFunded",
            MyError::EscrowSameMint => "EscrowSameMint",
            MyError::EscrowPDA => "EscrowPDA",
            MyError::OracleNum => "OracleNum",
            MyError::PythPDA => "PythPDA",
            MyError::PythPriceVerification => "PythPriceVerification",
            MyError::PythMismatchedFeedId => "PythMismatchedFeedId",
            MyError::PythPriceUpdateV2DataLen => "PythPriceUpdateV2DataLen",
            MyError::PythPriceUpdateV2Discriminator => "PythPriceUpdateV2Discriminator",
            MyError::OraclePriceInvalid => "OraclePriceInvalid",
            MyError::OraclePriceTooOld => "OraclePriceTooOld",
            MyError::PdaDataLen => "PdaDataLen",
        }
    }
}

/// Codes round-trip: deserializing a reason's own code yields the reason back.
pub proof fn lemma_error_code_round_trip(e: MyError)
    ensures
        MyError::spec_try_from(e.spec_code()) == Ok::<MyError, MyError>(e),
{
    let v = e.spec_code();
    assert(exists|x: MyError| x.spec_code() == v);
    let w = choose|x: MyError| x.spec_code() == v;
    assert(w == e);
}

} // verus!
