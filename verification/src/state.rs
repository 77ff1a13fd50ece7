//! The records this program persists in its own slots: the per-offer escrow
//! record with its fixed byte layout, and the config-record status values.

use crate::account::Account;
use crate::errors::MyError;
use crate::parse::{read_addr, read_u64_le};
use crate::PROGRAM_ID;
use vstd::bytes::{
    spec_u32_to_le_bytes, spec_u64_from_le_bytes, spec_u64_to_le_bytes, u32_to_le_bytes,
    u64_to_le_bytes,
};
use vstd::prelude::*;

verus! {

/// Lifecycle status of a config record.
#[derive(Clone, Copy, Debug, PartialEq, Eq, Structural)]
pub enum StatusEnum {
    Waiting,
    Active,
    Expired,
    Paused,
    Canceled,
}

/// What `u8_to_status` answers: the five valid status bytes, in order.
pub open spec fn spec_u8_to_status(num: u8) -> Result<StatusEnum, MyError> {
    match num {
        0u8 => Ok(StatusEnum::Waiting),
        1u8 => Ok(StatusEnum::Active),
        2u8 => Ok(StatusEnum::Expired),
        3u8 => Ok(StatusEnum::Paused),
        4u8 => Ok(StatusEnum::Canceled),
        _ => Err(MyError::InputStatus),
    }
}

/// Decode a status byte, rejecting values outside the enumeration.
pub fn u8_to_status(num: u8) -> (r: Result<StatusEnum, MyError>)
    ensures
        r == spec_u8_to_status(num),
{
    match num {
        0 => Ok(StatusEnum::Waiting),
        1 => Ok(StatusEnum::Active),
        2 => Ok(StatusEnum::Expired),
        3 => Ok(StatusEnum::Paused),
        4 => Ok(StatusEnum::Canceled),
        _ => Err(MyError::InputStatus),
    }
}

impl StatusEnum {
    /// Decode a status byte leniently: anything out of range reads as
    /// `Expired`.
    pub fn from(num: u8) -> (r: StatusEnum)
        ensures
            r == match num {
                0u8 => StatusEnum::Waiting,
                1u8 => StatusEnum::Active,
                2u8 => StatusEnum::Expired,
                3u8 => StatusEnum::Paused,
                4u8 => StatusEnum::Canceled,
                _ => StatusEnum::Expired,
            },
    {
        match num {
            0 => StatusEnum::Waiting,
            1 => StatusEnum::Active,
            2 => StatusEnum::Expired,
            3 => StatusEnum::Paused,
            4 => StatusEnum::Canceled,
            _ => StatusEnum::Expired,
        }
    }

    /// The status byte written into a record.
    pub fn to_u8(self) -> (r: u8)
        ensures
            r == match self {
                StatusEnum::Waiting => 0u8,
                StatusEnum::Active => 1u8,
                StatusEnum::Expired => 2u8,
                StatusEnum::Paused => 3u8,
                StatusEnum::Canceled => 4u8,
            },
    {
        match self {
            StatusEnum::Waiting => 0,
            StatusEnum::Active => 1,
            StatusEnum::Expired => 2,
            StatusEnum::Paused => 3,
            StatusEnum::Canceled => 4,
        }
    }
}

/// One party's open offer to swap `amount_x` of asset X for `amount_y` of
/// asset Y; exists only between Make and a terminal Take or Cancel.
#[derive(Clone, Copy)]
pub struct Escrow {
    /// Who locked asset X and may cancel.
    pub maker: [u8; 32],
    /// The offered asset.
    pub mint_x: [u8; 32],
    /// The wanted asset.
    pub mint_y: [u8; 32],
    /// How much X is locked.
    pub amount_x: u64,
    /// How much Y the maker asks for.
    pub amount_y: u64,
    /// Caller-chosen swap discriminator.
    pub id: u64,
    /// Decimals of asset X.
    pub decimal_x: u8,
    /// Decimals of asset Y.
    pub decimal_y: u8,
    /// Collision-avoidance byte of the escrow address derivation.
    pub bump: u8,
}

/// The mathematical value of an escrow record: addresses as byte sequences.
pub struct EscrowV {
    pub maker: Seq<u8>,
    pub mint_x: Seq<u8>,
    pub mint_y: Seq<u8>,
    pub amount_x: u64,
    pub amount_y: u64,
    pub id: u64,
    pub decimal_x: u8,
    pub decimal_y: u8,
    pub bump: u8,
}

impl View for Escrow {
    type V = EscrowV;

    open spec fn view(&self) -> EscrowV {
        EscrowV {
            maker: self.maker@,
            mint_x: self.mint_x@,
            mint_y: self.mint_y@,
            amount_x: self.amount_x,
            amount_y: self.amount_y,
            id: self.id,
            decimal_x: self.decimal_x,
            decimal_y: self.decimal_y,
            bump: self.bump,
        }
    }
}

/// Byte length of a serialized escrow record.
pub const ESCROW_LEN: usize = 123;

/// The record value a well-formed escrow payload denotes.
pub open spec fn spec_escrow_of_bytes(d: Seq<u8>) -> EscrowV {
    EscrowV {
        maker: d.subrange(0, 32),
        mint_x: d.subrange(32, 64),
        mint_y: d.subrange(64, 96),
        amount_x: spec_u64_from_le_bytes(d.subrange(96, 104)),
        amount_y: spec_u64_from_le_bytes(d.subrange(104, 112)),
        id: spec_u64_from_le_bytes(d.subrange(112, 120)),
        decimal_x: d[120],
        decimal_y: d[121],
        bump: d[122],
    }
}

impl Escrow {
    /// Serialize the record into its fixed layout.
    pub fn to_bytes(&self) -> (r: Vec<u8>)
        ensures
            r@.len() == ESCROW_LEN,
            spec_escrow_of_bytes(r@) == self@,
    {
        let mut v: Vec<u8> = Vec::new();
        crate::account::push_addr(&mut v, &self.maker);
        crate::account::push_addr(&mut v, &self.mint_x);
        crate::account::push_addr(&mut v, &self.mint_y);
        push_u64(&mut v, self.amount_x);
        push_u64(&mut v, self.amount_y);
        push_u64(&mut v, self.id);
        v.push(self.decimal_x);
        v.push(self.decimal_y);
        v.push(self.bump);
        proof {
            vstd::bytes::lemma_auto_spec_u64_to_from_le_bytes();
            assert(v@.subrange(0, 32) =~= self.maker@);
            assert(v@.subrange(32, 64) =~= self.mint_x@);
            assert(v@.subrange(64, 96) =~= self.mint_y@);
            assert(v@.subrange(96, 104) =~= spec_u64_to_le_bytes(self.amount_x));
            assert(v@.subrange(104, 112) =~= spec_u64_to_le_bytes(self.amount_y));
            assert(v@.subrange(112, 120) =~= spec_u64_to_le_bytes(self.id));
        }
        v
    }

    /// Deserialize a record from its fixed layout.
    pub fn from_bytes(d: &Vec<u8>) -> (r: Escrow)
        requires
            d@.len() == ESCROW_LEN,
        ensures
            r@ == spec_escrow_of_bytes(d@),
    {
        Escrow {
            maker: read_addr(d.as_slice(), 0),
            mint_x: read_addr(d.as_slice(), 32),
            mint_y: read_addr(d.as_slice(), 64),
            amount_x: read_u64_le(d.as_slice(), 96),
            amount_y: read_u64_le(d.as_slice(), 104),
            id: read_u64_le(d.as_slice(), 112),
            decimal_x: d[120],
            decimal_y: d[121],
            bump: d[122],
        }
    }

    /// What `load` answers: the record, after shape and ownership checks; a
    /// wrong-length record slot fails with the record-length reason.
    pub open spec fn spec_load(account: Account) -> Result<EscrowV, MyError> {
        if account.data@.len() != ESCROW_LEN {
            Err(MyError::PdaDataLen)
        } else if account.owner@ != PROGRAM_ID@ {
            Err(MyError::ForeignPDA)
        } else {
            Ok(spec_escrow_of_bytes(account.data@))
        }
    }

    /// Load the escrow record out of its slot, checking length and owner.
    pub fn load(account: &Account) -> (r: Result<Escrow, MyError>)
        ensures
            r matches Ok(e) ==> Self::spec_load(*account) == Ok::<EscrowV, MyError>(e@),
            r matches Err(er) ==> Self::spec_load(*account) == Err::<EscrowV, MyError>(er),
    {
        if account.data.len() != ESCROW_LEN {
            return Err(MyError::PdaDataLen);
        }
        if !crate::addr::addr_eq(&account.owner, &PROGRAM_ID) {
            return Err(MyError::ForeignPDA);
        }
        Ok(Self::from_bytes(&account.data))
    }
}

/// Append a little-endian u64 to a byte vector.
pub fn push_u64(v: &mut Vec<u8>, x: u64)
    ensures
        final(v)@ == old(v)@ + spec_u64_to_le_bytes(x),
{
    let mut b = u64_to_le_bytes(x);
    v.append(&mut b);
}

/// Append a little-endian u32 to a byte vector.
pub fn push_u32(v: &mut Vec<u8>, x: u32)
    ensures
        final(v)@ == old(v)@ + spec_u32_to_le_bytes(x),
{
    let mut b = u32_to_le_bytes(x);
    v.append(&mut b);
}

} // verus!
