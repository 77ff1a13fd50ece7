//! The per-owner configuration record: an accepted-asset allow-list, the
//! vault address, the owner and delegated admin, fee and status fields, and
//! its fixed byte layout.

use crate::account::{push_addr, Account};
use crate::errors::MyError;
use crate::parse::{read_addr, read_u32_le, read_u64_le};
use crate::state::{push_u32, push_u64};
use crate::PROGRAM_ID;
use vstd::bytes::{spec_u32_from_le_bytes, spec_u32_to_le_bytes, spec_u64_from_le_bytes, spec_u64_to_le_bytes};
use vstd::prelude::*;

verus! {

/// One configuration record per program-owner address.
pub struct Config2 {
    /// Allow-listed asset identifiers (up to four).
    pub mint0: [u8; 32],
    pub mint1: [u8; 32],
    pub mint2: [u8; 32],
    pub mint3: [u8; 32],
    /// The owner's vault address.
    pub vault: [u8; 32],
    /// The program-owner address.
    pub prog_owner: [u8; 32],
    /// The delegated admin address.
    pub admin: [u8; 32],
    /// Opaque 32-byte label.
    pub str_u8array: [u8; 32],
    /// Fee; nonzero once set.
    pub fee: u64,
    /// Cumulative native balance.
    pub sol_balance: u64,
    /// Cumulative token balance.
    pub token_balance: u64,
    /// Last-updated timestamp.
    pub updated_at: u32,
    /// Authorization flag.
    pub is_authorized: bool,
    /// Status byte (see `StatusEnum`).
    pub status: u8,
    /// Collision byte of the vault address derivation.
    pub vault_bump: u8,
    /// Collision byte of this record's address derivation.
    pub bump: u8,
    pub new_u32: u32,
    pub new_u64: u64,
    pub new_account1: [u8; 32],
}

/// The mathematical value of a config record: addresses as byte sequences.
pub struct Config2V {
    pub mint0: Seq<u8>,
    pub mint1: Seq<u8>,
    pub mint2: Seq<u8>,
    pub mint3: Seq<u8>,
    pub vault: Seq<u8>,
    pub prog_owner: Seq<u8>,
    pub admin: Seq<u8>,
    pub str_u8array: Seq<u8>,
    pub fee: u64,
    pub sol_balance: u64,
    pub token_balance: u64,
    pub updated_at: u32,
    pub is_authorized: bool,
    pub status: u8,
    pub vault_bump: u8,
    pub bump: u8,
    pub new_u32: u32,
    pub new_u64: u64,
    pub new_account1: Seq<u8>,
}

impl View for Config2 {
    type V = Config2V;

    open spec fn view(&self) -> Config2V {
        Config2V {
            mint0: self.mint0@,
            mint1: self.mint1@,
            mint2: self.mint2@,
            mint3: self.mint3@,
            vault: self.vault@,
            prog_owner: self.prog_owner@,
            admin: self.admin@,
            str_u8array: self.str_u8array@,
            fee: self.fee,
            sol_balance: self.sol_balance,
            token_balance: self.token_balance,
            updated_at: self.updated_at,
            is_authorized: self.is_authorized,
            status: self.status,
            vault_bump: self.vault_bump,
            bump: self.bump,
            new_u32: self.new_u32,
            new_u64: self.new_u64,
            new_account1: self.new_account1@,
        }
    }
}

/// Byte length of a serialized config record.
pub const CONFIG_LEN: usize = 332;

/// The record value a well-formed config payload denotes.
pub open spec fn spec_config_of_bytes(d: Seq<u8>) -> Config2V {
    Config2V {
        mint0: d.subrange(0, 32),
        mint1: d.subrange(32, 64),
        mint2: d.subrange(64, 96),
        mint3: d.subrange(96, 128),
        vault: d.subrange(128, 160),
        prog_owner: d.subrange(160, 192),
        admin: d.subrange(192, 224),
        str_u8array: d.subrange(224, 256),
        fee: spec_u64_from_le_bytes(d.subrange(256, 264)),
        sol_balance: spec_u64_from_le_bytes(d.subrange(264, 272)),
        token_balance: spec_u64_from_le_bytes(d.subrange(272, 280)),
        updated_at: spec_u32_from_le_bytes(d.subrange(280, 284)),
        is_authorized: d[284] == 1u8,
        status: d[285],
        vault_bump: d[286],
        bump: d[287],
        new_u32: spec_u32_from_le_bytes(d.subrange(288, 292)),
        new_u64: spec_u64_from_le_bytes(d.subrange(292, 300)),
        new_account1: d.subrange(300, 332),
    }
}

impl Config2 {
    /// Serialize the record into its fixed layout.
    pub fn to_bytes(&self) -> (r: Vec<u8>)
        ensures
            r@.len() == CONFIG_LEN,
            spec_config_of_bytes(r@) == self@,
    {
        let mut v: Vec<u8> = Vec::new();
        push_addr(&mut v, &self.mint0);
        push_addr(&mut v, &self.mint1);
        push_addr(&mut v, &self.mint2);
        push_addr(&mut v, &self.mint3);
        push_addr(&mut v, &self.vault);
        push_addr(&mut v, &self.prog_owner);
        push_addr(&mut v, &self.admin);
        push_addr(&mut v, &self.str_u8array);
        push_u64(&mut v, self.fee);
        push_u64(&mut v, self.sol_balance);
        push_u64(&mut v, self.token_balance);
        push_u32(&mut v, self.updated_at);
        v.push(if self.is_authorized { 1u8 } else { 0u8 });
        v.push(self.status);
        v.push(self.vault_bump);
        v.push(self.bump);
        push_u32(&mut v, self.new_u32);
        push_u64(&mut v, self.new_u64);
        push_addr(&mut v, &self.new_account1);
        proof {
            vstd::bytes::lemma_auto_spec_u64_to_from_le_bytes();
            vstd::bytes::lemma_auto_spec_u32_to_from_le_bytes();
            assert(v@.subrange(0, 32) =~= self.mint0@);
            assert(v@.subrange(32, 64) =~= self.mint1@);
            assert(v@.subrange(64, 96) =~= self.mint2@);
            assert(v@.subrange(96, 128) =~= self.mint3@);
            assert(v@.subrange(128, 160) =~= self.vault@);
            assert(v@.subrange(160, 192) =~= self.prog_owner@);
            assert(v@.subrange(192, 224) =~= self.admin@);
            assert(v@.subrange(224, 256) =~= self.str_u8array@);
            assert(v@.subrange(256, 264) =~= spec_u64_to_le_bytes(self.fee));
            assert(v@.subrange(264, 272) =~= spec_u64_to_le_bytes(self.sol_balance));
            assert(v@.subrange(272, 280) =~= spec_u64_to_le_bytes(self.token_balance));
            assert(v@.subrange(280, 284) =~= spec_u32_to_le_bytes(self.updated_at));
            assert(v@.subrange(288, 292) =~= spec_u32_to_le_bytes(self.new_u32));
            assert(v@.subrange(292, 300) =~= spec_u64_to_le_bytes(self.new_u64));
            assert(v@.subrange(300, 332) =~= self.new_account1@);
        }
        v
    }

    /// Deserialize a record from its fixed layout.
    pub fn from_bytes(d: &Vec<u8>) -> (r: Config2)
        requires
            d@.len() == CONFIG_LEN,
        ensures
            r@ == spec_config_of_bytes(d@),
    {
        Config2 {
            mint0: read_addr(d.as_slice(), 0),
            mint1: read_addr(d.as_slice(), 32),
            mint2: read_addr(d.as_slice(), 64),
            mint3: read_addr(d.as_slice(), 96),
            vault: read_addr(d.as_slice(), 128),
            prog_owner: read_addr(d.as_slice(), 160),
            admin: read_addr(d.as_slice(), 192),
            str_u8array: read_addr(d.as_slice(), 224),
            fee: read_u64_le(d.as_slice(), 256),
            sol_balance: read_u64_le(d.as_slice(), 264),
            token_balance: read_u64_le(d.as_slice(), 272),
            updated_at: read_u32_le(d.as_slice(), 280),
            is_authorized: d[284] == 1,
            status: d[285],
            vault_bump: d[286],
            bump: d[287],
            new_u32: read_u32_le(d.as_slice(), 288),
            new_u64: read_u64_le(d.as_slice(), 292),
            new_account1: read_addr(d.as_slice(), 300),
        }
    }

    /// What `load` answers: the record, after shape and ownership checks.
    pub open spec fn spec_load(account: Account) -> Result<Config2V, MyError> {
        if account.data@.len() != CONFIG_LEN {
            Err(MyError::ConfigDataLengh)
        } else if account.owner@ != PROGRAM_ID@ {
            Err(MyError::ForeignPDA)
        } else {
            Ok(spec_config_of_bytes(account.data@))
        }
    }

    /// Load the config record out of its slot, checking length and owner.
    pub fn load(account: &Account) -> (r: Result<Config2, MyError>)
        ensures
            r matches Ok(c) ==> Self::spec_load(*account) == Ok::<Config2V, MyError>(c@),
            r matches Err(e) ==> Self::spec_load(*account) == Err::<Config2V, MyError>(e),
    {
        if account.data.len() != CONFIG_LEN {
            return Err(MyError::ConfigDataLengh);
        }
        if !crate::addr::addr_eq(&account.owner, &PROGRAM_ID) {
            return Err(MyError::ForeignPDA);
        }
        Ok(Self::from_bytes(&account.data))
    }
}


impl Config2 {
    /// The first allow-listed asset.
    pub fn mint0(&self) -> (r: &[u8; 32])
        ensures
            r == self.mint0,
    {
        &self.mint0
    }

    /// The second allow-listed asset.
    pub fn mint1(&self) -> (r: &[u8; 32])
        ensures
            r == self.mint1,
    {
        &self.mint1
    }

    /// The third allow-listed asset.
    pub fn mint2(&self) -> (r: &[u8; 32])
        ensures
            r == self.mint2,
    {
        &self.mint2
    }

    /// The fourth allow-listed asset.
    pub fn mint3(&self) -> (r: &[u8; 32])
        ensures
            r == self.mint3,
    {
        &self.mint3
    }

    /// The vault address.
    pub fn vault(&self) -> (r: &[u8; 32])
        ensures
            r == self.vault,
    {
        &self.vault
    }

    /// The program-owner address.
    pub fn prog_owner(&self) -> (r: &[u8; 32])
        ensures
            r == self.prog_owner,
    {
        &self.prog_owner
    }

    /// The delegated-admin address.
    pub fn admin(&self) -> (r: &[u8; 32])
        ensures
            r == self.admin,
    {
        &self.admin
    }

    /// The opaque label.
    pub fn str_u8array(&self) -> (r: &[u8; 32])
        ensures
            r == self.str_u8array,
    {
        &self.str_u8array
    }

    /// The spare address field.
    pub fn new_account1(&self) -> (r: &[u8; 32])
        ensures
            r == self.new_account1,
    {
        &self.new_account1
    }

    /// The fee.
    pub fn fee(&self) -> (r: u64)
        ensures
            r == self.fee,
    {
        self.fee
    }

    /// The cumulative native balance.
    pub fn sol_balance(&self) -> (r: u64)
        ensures
            r == self.sol_balance,
    {
        self.sol_balance
    }

    /// The cumulative token balance.
    pub fn token_balance(&self) -> (r: u64)
        ensures
            r == self.token_balance,
    {
        self.token_balance
    }

    /// The last-updated timestamp.
    pub fn updated_at(&self) -> (r: u32)
        ensures
            r == self.updated_at,
    {
        self.updated_at
    }

    /// The spare word.
    pub fn new_u32(&self) -> (r: u32)
        ensures
            r == self.new_u32,
    {
        self.new_u32
    }

    /// The spare wide word.
    pub fn new_u64(&self) -> (r: u64)
        ensures
            r == self.new_u64,
    {
        self.new_u64
    }

    /// The vault collision byte.
    pub fn vault_bump(&self) -> (r: u8)
        ensures
            r == self.vault_bump,
    {
        self.vault_bump
    }

    /// The record collision byte.
    pub fn bump(&self) -> (r: u8)
        ensures
            r == self.bump,
    {
        self.bump
    }

    /// The authorization flag.
    pub fn is_authorized(&self) -> (r: bool)
        ensures
            r == self.is_authorized,
    {
        self.is_authorized
    }

    /// All four allow-listed assets, in order.
    pub fn mints(&self) -> (r: [[u8; 32]; 4])
        ensures
            r@ == seq![self.mint0, self.mint1, self.mint2, self.mint3],
    {
        let r = [self.mint0, self.mint1, self.mint2, self.mint3];
        proof {
            assert(r@ =~= seq![self.mint0, self.mint1, self.mint2, self.mint3]);
        }
        r
    }

    /// The status, decoded leniently.
    pub fn status(&self) -> (r: crate::state::StatusEnum)
        ensures
            r == match self.status {
                0u8 => crate::state::StatusEnum::Waiting,
                1u8 => crate::state::StatusEnum::Active,
                2u8 => crate::state::StatusEnum::Expired,
                3u8 => crate::state::StatusEnum::Paused,
                4u8 => crate::state::StatusEnum::Canceled,
                _ => crate::state::StatusEnum::Expired,
            },
    {
        crate::state::StatusEnum::from(self.status)
    }

    /// Overwrite the `mint0` field.
    pub fn set_mint0(&mut self, pkey: &[u8; 32])
        ensures
            *final(self) == (Config2 { mint0: *pkey, ..*old(self) }),
    {
        self.mint0 = *pkey;
    }

    /// Overwrite the `mint1` field.
    pub fn set_mint1(&mut self, pkey: &[u8; 32])
        ensures
            *final(self) == (Config2 { mint1: *pkey, ..*old(self) }),
    {
        self.mint1 = *pkey;
    }

    /// Overwrite the `mint2` field.
    pub fn set_mint2(&mut self, pkey: &[u8; 32])
        ensures
            *final(self) == (Config2 { mint2: *pkey, ..*old(self) }),
    {
        self.mint2 = *pkey;
    }

    /// Overwrite the `mint3` field.
    pub fn set_mint3(&mut self, pkey: &[u8; 32])
        ensures
            *final(self) == (Config2 { mint3: *pkey, ..*old(self) }),
    {
        self.mint3 = *pkey;
    }

    /// Overwrite the `vault` field.
    pub fn set_vault(&mut self, pkey: &[u8; 32])
        ensures
            *final(self) == (Config2 { vault: *pkey, ..*old(self) }),
    {
        self.vault = *pkey;
    }

    /// Overwrite the `prog_owner` field.
    pub fn set_prog_owner(&mut self, pkey: &[u8; 32])
        ensures
            *final(self) == (Config2 { prog_owner: *pkey, ..*old(self) }),
    {
        self.prog_owner = *pkey;
    }

    /// Overwrite the `admin` field.
    pub fn set_admin(&mut self, pkey: &[u8; 32])
        ensures
            *final(self) == (Config2 { admin: *pkey, ..*old(self) }),
    {
        self.admin = *pkey;
    }

    /// Overwrite the `str_u8array` field.
    pub fn set_str_u8array(&mut self, pkey: &[u8; 32])
        ensures
            *final(self) == (Config2 { str_u8array: *pkey, ..*old(self) }),
    {
        self.str_u8array = *pkey;
    }

    /// Overwrite the `new_account1` field.
    pub fn set_new_account1(&mut self, pkey: &[u8; 32])
        ensures
            *final(self) == (Config2 { new_account1: *pkey, ..*old(self) }),
    {
        self.new_account1 = *pkey;
    }

    /// Overwrite the `sol_balance` field.
    pub fn set_sol_balance(&mut self, amt: u64)
        ensures
            *final(self) == (Config2 { sol_balance: amt, ..*old(self) }),
    {
        self.sol_balance = amt;
    }

    /// Overwrite the `token_balance` field.
    pub fn set_token_balance(&mut self, amt: u64)
        ensures
            *final(self) == (Config2 { token_balance: amt, ..*old(self) }),
    {
        self.token_balance = amt;
    }

    /// Overwrite the `updated_at` field.
    pub fn set_updated_at(&mut self, amt: u32)
        ensures
            *final(self) == (Config2 { updated_at: amt, ..*old(self) }),
    {
        self.updated_at = amt;
    }

    /// Overwrite the `new_u32` field.
    pub fn set_new_u32(&mut self, amt: u32)
        ensures
            *final(self) == (Config2 { new_u32: amt, ..*old(self) }),
    {
        self.new_u32 = amt;
    }

    /// Overwrite the `new_u64` field.
    pub fn set_new_u64(&mut self, amt: u64)
        ensures
            *final(self) == (Config2 { new_u64: amt, ..*old(self) }),
    {
        self.new_u64 = amt;
    }

    /// Overwrite the `vault_bump` field.
    pub fn set_vault_bump(&mut self, amt: u8)
        ensures
            *final(self) == (Config2 { vault_bump: amt, ..*old(self) }),
    {
        self.vault_bump = amt;
    }

    /// Overwrite the `bump` field.
    pub fn set_bump(&mut self, amt: u8)
        ensures
            *final(self) == (Config2 { bump: amt, ..*old(self) }),
    {
        self.bump = amt;
    }

    /// Overwrite the fee; zero is refused and changes nothing.
    pub fn set_fee(&mut self, amt: u64) -> (r: Result<(), MyError>)
        ensures
            amt != 0 ==> r is Ok && *final(self) == (Config2 { fee: amt, ..*old(self) }),
            amt == 0 ==> r == Err::<(), MyError>(MyError::ZeroAsInput) && *final(self) == *old(
                self,
            ),
    {
        if amt == 0 {
            return Err(MyError::ZeroAsInput);
        }
        self.fee = amt;
        Ok(())
    }

    /// Overwrite the status byte.
    pub fn set_status(&mut self, status: u8)
        ensures
            *final(self) == (Config2 { status: status, ..*old(self) }),
    {
        self.status = status;
    }

    /// Overwrite the authorization flag.
    pub fn set_is_authorized(&mut self, boo: bool)
        ensures
            *final(self) == (Config2 { is_authorized: boo, ..*old(self) }),
    {
        self.is_authorized = boo;
    }

    /// Overwrite all four allow-listed assets at once.
    pub fn set_mints(&mut self, mints: &[[u8; 32]; 4])
        ensures
            *final(self) == (Config2 {
                mint0: mints@[0],
                mint1: mints@[1],
                mint2: mints@[2],
                mint3: mints@[3],
                ..*old(self)
            }),
    {
        self.mint0 = mints[0];
        self.mint1 = mints[1];
        self.mint2 = mints[2];
        self.mint3 = mints[3];
    }
}

} // verus!
