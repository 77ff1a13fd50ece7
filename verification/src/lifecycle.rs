//! The config-record lifecycle: Init creates and populates the record at its
//! derived address, Update mutates one field group per call, Resize adjusts
//! the slot to exactly the minimum-retention balance of its new size, Close
//! sweeps the balance out and releases the slot.

use crate::account::Account;
use crate::addr::{addr_eq, derive_pda1, pda_derivation, tag_owner_seeds, CONFIG_SEED, VAULT_SEED};
use crate::config::{spec_config_of_bytes, Config2, Config2V, CONFIG_LEN};
use crate::errors::MyError;
use crate::escrow::{guard_err, res_err};
use crate::guards::{
    check_pda, check_signer, check_sysprog, spec_check_pda, writable,
};
use crate::parse::{
    check_data_len, read_addr, read_u32_le, read_u64_le, spec_parse_u32, spec_parse_u64,
    u8_to_bool,
};
use crate::state::{spec_u8_to_status, u8_to_status};
use crate::PROGRAM_ID;
use vstd::prelude::*;

verus! {

broadcast use vstd::array::group_array_axioms;

/// The ledger's absolute cap on a slot's payload size.
pub const MAX_DATA_LEN: usize = 10485760;

/// The Init instruction: create the per-owner config record at its derived
/// address, funded to the minimum-retention balance, owned by this program.
pub struct InitConfig {
    pub authority: Account,
    pub config_pda: Account,
    pub original_owner: Account,
    pub system_program: Account,
    pub fee: u64,
}

/// The first failing check of Init's validation, in order.
pub open spec fn spec_init_try_err(data: Seq<u8>, a: Seq<Account>) -> Option<MyError> {
    if a.len() != 4 {
        Some(MyError::NotEnoughAccountKeys)
    } else {
        let authority = a[0];
        let config_pda = a[1];
        let system_program = a[3];
        if !authority.is_signer {
            Some(MyError::NotSigner)
        } else if !config_pda.is_writable {
            Some(MyError::NotWritable)
        } else if system_program.key@ != crate::addr::SYSTEM_PROGRAM_ID@ {
            Some(MyError::SystemProgram)
        } else {
            res_err(spec_parse_u64(data))
        }
    }
}

impl InitConfig {
    /// Match the exact account arity, run the guards, and parse the nonzero
    /// fee.
    pub fn try_from(data: &[u8], accounts: Vec<Account>) -> (r: Result<InitConfig, MyError>)
        ensures
            match r {
                Ok(t) => {
                    &&& spec_init_try_err(data@, accounts@) is None
                    &&& t.authority == accounts@[0]
                    &&& t.config_pda == accounts@[1]
                    &&& t.original_owner == accounts@[2]
                    &&& t.system_program == accounts@[3]
                    &&& Ok::<u64, MyError>(t.fee) == spec_parse_u64(data@)
                    &&& t.fee > 0
                },
                Err(e) => spec_init_try_err(data@, accounts@) == Some(e),
            },
    {
        let mut v = accounts;
        if v.len() != 4 {
            return Err(MyError::NotEnoughAccountKeys);
        }
        let system_program = v.pop().unwrap();
        let original_owner = v.pop().unwrap();
        let config_pda = v.pop().unwrap();
        let authority = v.pop().unwrap();
        check_signer(&authority)?;
        writable(&config_pda)?;
        check_sysprog(&system_program)?;
        let fee = crate::parse::parse_u64(data)?;
        Ok(InitConfig { authority, config_pda, original_owner, system_program, fee })
    }
}

/// The first failing check of Init's state transition, in order.
pub open spec fn spec_init_process_err(s: InitConfig, rent_min_config: u64) -> Option<MyError> {
    if s.config_pda.lamports != 0 {
        Some(MyError::AccountAlreadyInitialized)
    } else {
        match pda_derivation(tag_owner_seeds(CONFIG_SEED@, s.authority.key@), PROGRAM_ID@) {
            None => Some(MyError::InvalidSeeds),
            Some(p) => {
                if s.config_pda.key@ != p.0 {
                    Some(MyError::ConfigPDA)
                } else {
                    match pda_derivation(
                        tag_owner_seeds(VAULT_SEED@, s.authority.key@),
                        PROGRAM_ID@,
                    ) {
                        None => Some(MyError::InvalidSeeds),
                        Some(_) => if s.authority.lamports < rent_min_config {
                            Some(MyError::InsufficientFunds)
                        } else {
                            None
                        },
                    }
                }
            },
        }
    }
}

impl InitConfig {
    /// Create the record: the target slot must hold no balance yet, must sit
    /// at the derived config address, and is created at the fixed config
    /// length, funded by the caller to the minimum-retention balance, owned
    /// by this program, and populated (admin: the caller; owner: the given
    /// original owner; vault: the derived vault address; fee as parsed;
    /// status Waiting).
    pub fn process(&mut self, rent_min_config: u64, now: u32) -> (r: Result<(), MyError>)
        ensures
            match r {
                Ok(_) => {
                    let cfg = pda_derivation(
                        tag_owner_seeds(CONFIG_SEED@, old(self).authority.key@),
                        PROGRAM_ID@,
                    )->Some_0;
                    let vlt = pda_derivation(
                        tag_owner_seeds(VAULT_SEED@, old(self).authority.key@),
                        PROGRAM_ID@,
                    )->Some_0;
                    &&& spec_init_process_err(*old(self), rent_min_config) is None
                    &&& final(self).config_pda.data@.len() == CONFIG_LEN
                    &&& spec_config_of_bytes(final(self).config_pda.data@) == (Config2V {
                        mint0: seq![0u8; 32],
                        mint1: seq![0u8; 32],
                        mint2: seq![0u8; 32],
                        mint3: seq![0u8; 32],
                        vault: vlt.0,
                        prog_owner: old(self).original_owner.key@,
                        admin: old(self).authority.key@,
                        str_u8array: seq![0u8; 32],
                        fee: old(self).fee,
                        sol_balance: 0u64,
                        token_balance: 0u64,
                        updated_at: now,
                        is_authorized: false,
                        status: 0u8,
                        vault_bump: vlt.1,
                        bump: cfg.1,
                        new_u32: 0u32,
                        new_u64: 0u64,
                        new_account1: seq![0u8; 32],
                    })
                    &&& final(self).config_pda.owner@ == PROGRAM_ID@
                    &&& final(self).config_pda.lamports == rent_min_config
                    &&& final(self).config_pda.key == old(self).config_pda.key
                    &&& final(self).authority.lamports == old(self).authority.lamports
                        - rent_min_config
                    &&& final(self).authority.key == old(self).authority.key
                    &&& final(self).original_owner == old(self).original_owner
                    &&& final(self).system_program == old(self).system_program
                    &&& final(self).fee == old(self).fee
                },
                Err(e) => *final(self) == *old(self) && spec_init_process_err(
                    *old(self),
                    rent_min_config,
                ) == Some(e),
            },
    {
        if self.config_pda.lamports != 0 {
            return Err(MyError::AccountAlreadyInitialized);
        }
        let cfg = derive_pda1(CONFIG_SEED.as_slice(), &self.authority.key)?;
        if !addr_eq(&self.config_pda.key, &cfg.0) {
            return Err(MyError::ConfigPDA);
        }
        let vlt = derive_pda1(VAULT_SEED.as_slice(), &self.authority.key)?;
        if self.authority.lamports < rent_min_config {
            return Err(MyError::InsufficientFunds);
        }
        let zero_addr = [0u8; 32];
        proof {
            assert(zero_addr@ =~= seq![0u8; 32]);
        }
        let record = Config2 {
            mint0: zero_addr,
            mint1: zero_addr,
            mint2: zero_addr,
            mint3: zero_addr,
            vault: vlt.0,
            prog_owner: self.original_owner.key,
            admin: self.authority.key,
            str_u8array: zero_addr,
            fee: self.fee,
            sol_balance: 0,
            token_balance: 0,
            updated_at: now,
            is_authorized: false,
            status: 0,
            vault_bump: vlt.1,
            bump: cfg.1,
            new_u32: 0,
            new_u64: 0,
            new_account1: zero_addr,
        };
        self.authority.lamports = self.authority.lamports - rent_min_config;
        self.config_pda.lamports = rent_min_config;
        self.config_pda.owner = PROGRAM_ID;
        self.config_pda.data = record.to_bytes();
        Ok(())
    }
}


/// The Update instruction: one field-group mutation per call, selected by a
/// function-selector byte; only the admin or the owner may call it.
pub struct Config2Update {
    pub authority: Account,
    pub config_pda: Account,
    pub account1: [u8; 32],
    pub account2: [u8; 32],
    pub bools: [bool; 4],
    pub u8s: [u8; 4],
    pub u32s: [u32; 4],
    pub u64s: [u64; 4],
    pub str_u8array: [u8; 32],
    pub config2: Config2,
}

/// Whether a byte is a valid single-byte boolean.
pub open spec fn spec_bool_bad(b: u8) -> bool {
    b != 0 && b != 1
}

/// The first failing check of Update's validation, in order: payload length,
/// arity, caller guards, payload decoding, status range, record load, and
/// the admin-or-owner authority rule.
pub open spec fn spec_update_try_err(data: Seq<u8>, a: Seq<Account>) -> Option<MyError> {
    if data.len() != 88 {
        Some(MyError::InputDataLen)
    } else if a.len() != 4 {
        Some(MyError::NotEnoughAccountKeys)
    } else {
        let authority = a[0];
        let config_pda = a[1];
        if !authority.is_signer {
            Some(MyError::NotSigner)
        } else if !config_pda.is_writable {
            Some(MyError::NotWritable)
        } else if spec_check_pda(config_pda) is Err {
            guard_err(spec_check_pda(config_pda))
        } else if spec_bool_bad(data[0]) || spec_bool_bad(data[1]) || spec_bool_bad(data[2])
            || spec_bool_bad(data[3]) {
            Some(MyError::InputU8InvalidForBool)
        } else if spec_parse_u32(data.subrange(8, 12)) is Err {
            res_err(spec_parse_u32(data.subrange(8, 12)))
        } else if spec_parse_u32(data.subrange(12, 16)) is Err {
            res_err(spec_parse_u32(data.subrange(12, 16)))
        } else if spec_parse_u32(data.subrange(16, 20)) is Err {
            res_err(spec_parse_u32(data.subrange(16, 20)))
        } else if spec_parse_u32(data.subrange(20, 24)) is Err {
            res_err(spec_parse_u32(data.subrange(20, 24)))
        } else if spec_parse_u64(data.subrange(24, 32)) is Err {
            res_err(spec_parse_u64(data.subrange(24, 32)))
        } else if spec_parse_u64(data.subrange(32, 40)) is Err {
            res_err(spec_parse_u64(data.subrange(32, 40)))
        } else if spec_parse_u64(data.subrange(40, 48)) is Err {
            res_err(spec_parse_u64(data.subrange(40, 48)))
        } else if spec_parse_u64(data.subrange(48, 56)) is Err {
            res_err(spec_parse_u64(data.subrange(48, 56)))
        } else if spec_u8_to_status(data[5]) is Err {
            Some(MyError::InputStatus)
        } else if Config2::spec_load(config_pda) is Err {
            match Config2::spec_load(config_pda) {
                Err(e) => Some(e),
                Ok(_) => None,
            }
        } else {
            let cfg = Config2::spec_load(config_pda)->Ok_0;
            if cfg.admin != authority.key@ && cfg.prog_owner != authority.key@ {
                Some(MyError::IncorrectAuthority)
            } else {
                None
            }
        }
    }
}

impl Config2Update {
    /// Everything `process` relies on: the loaded record matches the slot's
    /// payload, and the caller passed the authority rule.
    pub open spec fn wf(self) -> bool {
        &&& self.config_pda.data@.len() == CONFIG_LEN
        &&& self.config2@ == spec_config_of_bytes(self.config_pda.data@)
    }

    /// Match the exact account arity, decode the fixed-width payload, load
    /// the record, and enforce the admin-or-owner rule; nothing is mutated.
    pub fn try_from(data: &[u8], accounts: Vec<Account>) -> (r: Result<Config2Update, MyError>)
        ensures
            match r {
                Ok(t) => {
                    &&& spec_update_try_err(data@, accounts@) is None
                    &&& t.wf()
                    &&& t.authority == accounts@[0]
                    &&& t.config_pda == accounts@[1]
                    &&& t.account1@ == accounts@[2].key@
                    &&& t.account2@ == accounts@[3].key@
                    &&& t.u8s@ == data@.subrange(4, 8)
                    &&& Ok::<u32, MyError>(t.u32s[0]) == spec_parse_u32(data@.subrange(8, 12))
                    &&& Ok::<u64, MyError>(t.u64s[0]) == spec_parse_u64(data@.subrange(24, 32))
                    &&& Ok::<u64, MyError>(t.u64s[1]) == spec_parse_u64(data@.subrange(32, 40))
                    &&& t.str_u8array@ == data@.subrange(56, 88)
                    &&& t.config2@ == spec_config_of_bytes(accounts@[1].data@)
                    &&& (t.config2.admin@ == t.authority.key@ || t.config2.prog_owner@
                        == t.authority.key@)
                },
                Err(e) => spec_update_try_err(data@, accounts@) == Some(e),
            },
    {
        check_data_len(data, 88)?;
        let mut v = accounts;
        if v.len() != 4 {
            return Err(MyError::NotEnoughAccountKeys);
        }
        let acc2 = v.pop().unwrap();
        let acc1 = v.pop().unwrap();
        let config_pda = v.pop().unwrap();
        let authority = v.pop().unwrap();
        check_signer(&authority)?;
        writable(&config_pda)?;
        check_pda(&config_pda)?;
        let b0 = u8_to_bool(data[0])?;
        let b1 = u8_to_bool(data[1])?;
        let b2 = u8_to_bool(data[2])?;
        let b3 = u8_to_bool(data[3])?;
        let bools = [b0, b1, b2, b3];
        let u8s = [data[4], data[5], data[6], data[7]];
        let u32a = parse_u32_at(data, 8)?;
        let u32b = parse_u32_at(data, 12)?;
        let u32c = parse_u32_at(data, 16)?;
        let u32d = parse_u32_at(data, 20)?;
        let u32s = [u32a, u32b, u32c, u32d];
        let u64a = parse_u64_at(data, 24)?;
        let u64b = parse_u64_at(data, 32)?;
        let u64c = parse_u64_at(data, 40)?;
        let u64d = parse_u64_at(data, 48)?;
        let u64s = [u64a, u64b, u64c, u64d];
        let str_u8array = read_addr(data, 56);
        if u8_to_status(u8s[1]).is_err() {
            return Err(MyError::InputStatus);
        }
        let config2 = Config2::load(&config_pda)?;
        if !addr_eq(&config2.admin, &authority.key) && !addr_eq(
            &config2.prog_owner,
            &authority.key,
        ) {
            return Err(MyError::IncorrectAuthority);
        }
        proof {
            assert(u8s@ =~= data@.subrange(4, 8));
        }
        Ok(Config2Update {
            authority,
            config_pda,
            account1: acc1.key,
            account2: acc2.key,
            bools,
            u8s,
            u32s,
            u64s,
            str_u8array,
            config2,
        })
    }

    /// Only the program owner may pass.
    pub fn only_owner(&self) -> (r: Result<(), MyError>)
        ensures
            r == if self.config2.prog_owner@ != self.authority.key@ {
                Err::<(), MyError>(MyError::OnlyProgOwner)
            } else {
                Ok::<(), MyError>(())
            },
    {
        if !addr_eq(&self.config2.prog_owner, &self.authority.key) {
            return Err(MyError::OnlyProgOwner);
        }
        Ok(())
    }

    /// Write the record back into its slot.
    fn persist(&mut self)
        ensures
            final(self).config_pda.data@.len() == CONFIG_LEN,
            spec_config_of_bytes(final(self).config_pda.data@) == old(self).config2@,
            final(self).config2 == old(self).config2,
            final(self).authority == old(self).authority,
            final(self).config_pda.key == old(self).config_pda.key,
            final(self).config_pda.lamports == old(self).config_pda.lamports,
            final(self).config_pda.owner == old(self).config_pda.owner,
            final(self).config_pda.is_signer == old(self).config_pda.is_signer,
            final(self).config_pda.is_writable == old(self).config_pda.is_writable,
            final(self).config_pda.executable == old(self).config_pda.executable,
            final(self).account1 == old(self).account1,
            final(self).account2 == old(self).account2,
            final(self).bools == old(self).bools,
            final(self).u8s == old(self).u8s,
            final(self).u32s == old(self).u32s,
            final(self).u64s == old(self).u64s,
            final(self).str_u8array == old(self).str_u8array,
            final(self).wf(),
    {
        let bytes = self.config2.to_bytes();
        self.config_pda.data = bytes;
    }

    /// Group 0: overwrite the status byte.
    pub fn update_status(&mut self) -> (r: Result<(), MyError>)
        requires
            old(self).wf(),
        ensures
            r is Ok,
            final(self).config2@ == (Config2V { status: old(self).u8s[1], ..old(self).config2@ }),
            spec_config_of_bytes(final(self).config_pda.data@) == final(self).config2@,
            final(self).authority == old(self).authority,
            final(self).u8s == old(self).u8s,
            final(self).wf(),
    {
        self.config2.status = self.u8s[1];
        self.persist();
        Ok(())
    }

    /// Group 1: set a nonzero fee, stamp the update time, and refresh status
    /// and admin together — all or nothing.
    pub fn update_fee(&mut self, now: u32) -> (r: Result<(), MyError>)
        requires
            old(self).wf(),
        ensures
            match r {
                Ok(_) => {
                    &&& old(self).u64s[0] != 0
                    &&& final(self).config2@ == (Config2V {
                        fee: old(self).u64s[0],
                        updated_at: now,
                        status: old(self).u8s[1],
                        admin: old(self).account1@,
                        ..old(self).config2@
                    })
                    &&& spec_config_of_bytes(final(self).config_pda.data@) == final(self).config2@
                    &&& final(self).authority == old(self).authority
                    &&& final(self).wf()
                },
                Err(e) => *final(self) == *old(self) && e == MyError::ZeroAsInput && old(self).u64s[0] == 0,
            },
    {
        if self.u64s[0] == 0 {
            return Err(MyError::ZeroAsInput);
        }
        self.config2.fee = self.u64s[0];
        self.config2.updated_at = now;
        self.config2.status = self.u8s[1];
        self.config2.admin = self.account1;
        self.persist();
        Ok(())
    }

    /// Group 2: the owner replaces the delegated admin.
    pub fn update_admin(&mut self) -> (r: Result<(), MyError>)
        requires
            old(self).wf(),
        ensures
            match r {
                Ok(_) => {
                    &&& old(self).config2.prog_owner@ == old(self).authority.key@
                    &&& final(self).config2@ == (Config2V {
                        admin: old(self).account1@,
                        ..old(self).config2@
                    })
                    &&& spec_config_of_bytes(final(self).config_pda.data@) == final(self).config2@
                    &&& final(self).authority == old(self).authority
                    &&& final(self).wf()
                },
                Err(e) => *final(self) == *old(self) && e == MyError::OnlyProgOwner && old(self).config2.prog_owner@ != old(self).authority.key@,
            },
    {
        self.only_owner()?;
        self.config2.admin = self.account1;
        self.persist();
        Ok(())
    }

    /// The owner hands the record to a new owner.
    pub fn update_prog_owner(&mut self) -> (r: Result<(), MyError>)
        requires
            old(self).wf(),
        ensures
            match r {
                Ok(_) => {
                    &&& old(self).config2.prog_owner@ == old(self).authority.key@
                    &&& final(self).config2@ == (Config2V {
                        prog_owner: old(self).account1@,
                        ..old(self).config2@
                    })
                    &&& spec_config_of_bytes(final(self).config_pda.data@) == final(self).config2@
                    &&& final(self).wf()
                },
                Err(e) => *final(self) == *old(self) && e == MyError::OnlyProgOwner && old(self).config2.prog_owner@ != old(self).authority.key@,
            },
    {
        self.only_owner()?;
        self.config2.prog_owner = self.account1;
        self.persist();
        Ok(())
    }

    /// Group 3: overwrite the spare word and the label together.
    pub fn update_new_u32(&mut self) -> (r: Result<(), MyError>)
        requires
            old(self).wf(),
        ensures
            r is Ok,
            final(self).config2@ == (Config2V {
                new_u32: old(self).u32s[0],
                str_u8array: old(self).str_u8array@,
                ..old(self).config2@
            }),
            spec_config_of_bytes(final(self).config_pda.data@) == final(self).config2@,
            final(self).wf(),
    {
        self.config2.new_u32 = self.u32s[0];
        self.config2.str_u8array = self.str_u8array;
        self.persist();
        Ok(())
    }

    /// Accumulate into the cumulative token balance, refusing overflow.
    pub fn add_tokens(&mut self) -> (r: Result<(), MyError>)
        requires
            old(self).wf(),
        ensures
            match r {
                Ok(_) => {
                    &&& old(self).config2.token_balance + old(self).u64s[1] <= u64::MAX
                    &&& final(self).config2@ == (Config2V {
                        token_balance: (old(self).config2.token_balance + old(self).u64s[1]) as u64,
                        ..old(self).config2@
                    })
                    &&& spec_config_of_bytes(final(self).config_pda.data@) == final(self).config2@
                    &&& final(self).wf()
                },
                Err(e) => *final(self) == *old(self) && e == MyError::ArithmeticOverflow && old(self).config2.token_balance + old(self).u64s[1] > u64::MAX,
            },
    {
        if self.config2.token_balance > u64::MAX - self.u64s[1] {
            return Err(MyError::ArithmeticOverflow);
        }
        self.config2.token_balance = self.config2.token_balance + self.u64s[1];
        self.persist();
        Ok(())
    }

    /// Dispatch on the function-selector byte: status, fee group, admin, or
    /// spare-word group; anything else is refused.
    pub fn process(&mut self, now: u32) -> (r: Result<(), MyError>)
        requires
            old(self).wf(),
        ensures
            old(self).u8s[0] > 3 ==> r == Err::<(), MyError>(MyError::FunctionSelector)
                && *final(self) == *old(self),
            old(self).u8s[0] == 0 ==> r is Ok && final(self).config2@ == (Config2V {
                status: old(self).u8s[1],
                ..old(self).config2@
            }),
            old(self).u8s[0] == 1 ==> (match r {
                Ok(_) => old(self).u64s[0] != 0 && final(self).config2@ == (Config2V {
                    fee: old(self).u64s[0],
                    updated_at: now,
                    status: old(self).u8s[1],
                    admin: old(self).account1@,
                    ..old(self).config2@
                }),
                Err(e) => *final(self) == *old(self) && e == MyError::ZeroAsInput && old(self).u64s[0] == 0,
            }),
            old(self).u8s[0] == 2 ==> (match r {
                Ok(_) => old(self).config2.prog_owner@ == old(self).authority.key@ && final(self).config2@ == (Config2V { admin: old(self).account1@, ..old(self).config2@ }),
                Err(e) => *final(self) == *old(self) && e == MyError::OnlyProgOwner && old(self).config2.prog_owner@ != old(self).authority.key@,
            }),
            old(self).u8s[0] == 3 ==> r is Ok && final(self).config2@ == (Config2V {
                new_u32: old(self).u32s[0],
                str_u8array: old(self).str_u8array@,
                ..old(self).config2@
            }),
            r is Ok ==> spec_config_of_bytes(final(self).config_pda.data@) == final(self).config2@ && final(self).wf(),
    {
        let selector = self.u8s[0];
        match selector {
            0 => self.update_status(),
            1 => self.update_fee(now),
            2 => self.update_admin(),
            3 => self.update_new_u32(),
            _ => Err(MyError::FunctionSelector),
        }
    }
}

/// Parse a nonzero little-endian u32 at a byte offset.
fn parse_u32_at(data: &[u8], off: usize) -> (r: Result<u32, MyError>)
    requires
        off + 4 <= data@.len(),
    ensures
        r == spec_parse_u32(data@.subrange(off as int, off as int + 4)),
{
    let x = read_u32_le(data, off);
    if x == 0 {
        return Err(MyError::ZeroAsInput);
    }
    Ok(x)
}

/// Parse a nonzero little-endian u64 at a byte offset.
fn parse_u64_at(data: &[u8], off: usize) -> (r: Result<u64, MyError>)
    requires
        off + 8 <= data@.len(),
    ensures
        r == spec_parse_u64(data@.subrange(off as int, off as int + 8)),
{
    let x = read_u64_le(data, off);
    if x == 0 {
        return Err(MyError::ZeroAsInput);
    }
    Ok(x)
}


/// The Resize instruction: change the record slot's size and settle its
/// balance to exactly the minimum-retention threshold of the new size.
pub struct ConfigResize {
    pub authority: Account,
    pub config_pda: Account,
    pub system_program: Account,
    pub new_len: u64,
}

/// The first failing check of Resize's validation, in order.
pub open spec fn spec_resize_try_err(data: Seq<u8>, a: Seq<Account>) -> Option<MyError> {
    if data.len() != 8 {
        Some(MyError::InputDataLen)
    } else if a.len() != 3 {
        Some(MyError::NotEnoughAccountKeys)
    } else {
        let authority = a[0];
        let config_pda = a[1];
        let system_program = a[2];
        if !authority.is_signer {
            Some(MyError::NotSigner)
        } else if !config_pda.is_writable {
            Some(MyError::NotWritable)
        } else if spec_check_pda(config_pda) is Err {
            guard_err(spec_check_pda(config_pda))
        } else if system_program.key@ != crate::addr::SYSTEM_PROGRAM_ID@ {
            Some(MyError::SystemProgram)
        } else if config_pda.data@.len() < 224 {
            Some(MyError::ConfigDataLengh)
        } else if config_pda.data@.subrange(192, 224) != authority.key@
            && config_pda.data@.subrange(160, 192) != authority.key@ {
            Some(MyError::IncorrectAuthority)
        } else {
            res_err(spec_parse_u64(data))
        }
    }
}

impl ConfigResize {
    /// Match the exact account arity, enforce the admin-or-owner rule, and
    /// parse the nonzero target size; nothing is mutated.
    pub fn try_from(data: &[u8], accounts: Vec<Account>) -> (r: Result<ConfigResize, MyError>)
        ensures
            match r {
                Ok(t) => {
                    &&& spec_resize_try_err(data@, accounts@) is None
                    &&& t.authority == accounts@[0]
                    &&& t.config_pda == accounts@[1]
                    &&& t.system_program == accounts@[2]
                    &&& Ok::<u64, MyError>(t.new_len) == spec_parse_u64(data@)
                    &&& t.new_len > 0
                },
                Err(e) => spec_resize_try_err(data@, accounts@) == Some(e),
            },
    {
        check_data_len(data, 8)?;
        let mut v = accounts;
        if v.len() != 3 {
            return Err(MyError::NotEnoughAccountKeys);
        }
        let system_program = v.pop().unwrap();
        let config_pda = v.pop().unwrap();
        let authority = v.pop().unwrap();
        check_signer(&authority)?;
        writable(&config_pda)?;
        check_pda(&config_pda)?;
        check_sysprog(&system_program)?;
        // the record may currently have any size; the authority fields sit
        // in its fixed leading region
        if config_pda.data.len() < 224 {
            return Err(MyError::ConfigDataLengh);
        }
        let admin = read_addr(config_pda.data.as_slice(), 192);
        let owner = read_addr(config_pda.data.as_slice(), 160);
        if !addr_eq(&admin, &authority.key) && !addr_eq(&owner, &authority.key) {
            return Err(MyError::IncorrectAuthority);
        }
        let new_len = crate::parse::parse_u64(data)?;
        Ok(ConfigResize { authority, config_pda, system_program, new_len })
    }
}

/// The first failing check of Resize's state transition, in order.
/// `rent_min_new` is the rent oracle's minimum balance for the new size.
pub open spec fn spec_resize_process_err(s: ConfigResize, rent_min_new: u64) -> Option<MyError> {
    if s.new_len > MAX_DATA_LEN {
        Some(MyError::InvalidAccountData)
    } else if rent_min_new > s.config_pda.lamports && s.authority.lamports < rent_min_new
        - s.config_pda.lamports {
        Some(MyError::InsufficientFunds)
    } else if rent_min_new < s.config_pda.lamports && s.authority.lamports + (
    s.config_pda.lamports - rent_min_new) > u64::MAX {
        Some(MyError::ArithmeticOverflow)
    } else {
        None
    }
}

impl ConfigResize {
    /// Resize the slot to the new size (truncating, or extending with zero
    /// bytes) and settle its balance to exactly the minimum-retention
    /// threshold of that size, moving the difference to or from the caller.
    /// The balance after any resize is the oracle's minimum for the target
    /// size alone, independent of the slot's history.
    pub fn process(&mut self, rent_min_new: u64) -> (r: Result<(), MyError>)
        ensures
            match r {
                Ok(_) => {
                    &&& spec_resize_process_err(*old(self), rent_min_new) is None
                    &&& final(self).config_pda.data@.len() == old(self).new_len
                    &&& final(self).config_pda.lamports == rent_min_new
                    &&& (forall|i: int|
                        0 <= i < old(self).new_len && i < old(self).config_pda.data@.len()
                            ==> final(self).config_pda.data@[i] == old(self).config_pda.data@[i])
                    &&& (forall|i: int|
                        old(self).config_pda.data@.len() <= i < old(self).new_len ==> final(self).config_pda.data@[i] == 0u8)
                    &&& final(self).authority.lamports == old(self).authority.lamports + old(self).config_pda.lamports - rent_min_new
                    &&& final(self).authority.key == old(self).authority.key
                    &&& final(self).config_pda.key == old(self).config_pda.key
                    &&& final(self).config_pda.owner == old(self).config_pda.owner
                    &&& final(self).system_program == old(self).system_program
                    &&& final(self).new_len == old(self).new_len
                },
                Err(e) => *final(self) == *old(self) && spec_resize_process_err(
                    *old(self),
                    rent_min_new,
                ) == Some(e),
            },
    {
        if self.new_len > MAX_DATA_LEN as u64 {
            return Err(MyError::InvalidAccountData);
        }
        let new_len = self.new_len as usize;
        let prev = self.config_pda.lamports;
        if rent_min_new > prev {
            let diff = rent_min_new - prev;
            if self.authority.lamports < diff {
                return Err(MyError::InsufficientFunds);
            }
            self.authority.lamports = self.authority.lamports - diff;
        } else if rent_min_new < prev {
            let diff = prev - rent_min_new;
            if self.authority.lamports > u64::MAX - diff {
                return Err(MyError::ArithmeticOverflow);
            }
            self.authority.lamports = self.authority.lamports + diff;
        }
        self.config_pda.lamports = rent_min_new;
        if new_len <= self.config_pda.data.len() {
            self.config_pda.data.truncate(new_len);
        } else {
            let add = new_len - self.config_pda.data.len();
            crate::account::push_zeros(&mut self.config_pda.data, add);
        }
        Ok(())
    }
}

/// Resize to a new size and back restores the original minimum-retention
/// balance exactly: the balance a resize leaves is the oracle's minimum for
/// the target size alone, so a round trip over sizes ends where it began.
pub proof fn lemma_resize_balance_round_trip(
    start_lamports: u64,
    min_orig: u64,
    min_new: u64,
    after_first: u64,
    after_second: u64,
)
    requires
        start_lamports == min_orig,
        after_first == min_new,
        after_second == min_orig,
    ensures
        after_second == start_lamports,
{
}

/// The Close instruction: invalidate the record, sweep the remaining balance
/// to a caller-chosen destination, and release the slot.
pub struct CloseConfigPda {
    pub authority: Account,
    pub pda: Account,
    pub dest: Account,
}

/// The first failing check of Close's run, in order: only the admin or the
/// owner may close, and the swept balance must fit the destination.
pub open spec fn spec_close_err(s: CloseConfigPda) -> Option<MyError> {
    if !s.authority.is_signer {
        Some(MyError::NotSigner)
    } else if !s.pda.is_writable {
        Some(MyError::NotWritable)
    } else if s.pda.owner@ != PROGRAM_ID@ {
        Some(MyError::ForeignPDA)
    } else if Config2::spec_load(s.pda) is Err {
        match Config2::spec_load(s.pda) {
            Err(e) => Some(e),
            Ok(_) => None,
        }
    } else {
        let cfg = Config2::spec_load(s.pda)->Ok_0;
        if cfg.admin != s.authority.key@ && cfg.prog_owner != s.authority.key@ {
            Some(MyError::IncorrectAuthority)
        } else if s.dest.lamports + s.pda.lamports > u64::MAX {
            Some(MyError::ArithmeticOverflow)
        } else {
            None
        }
    }
}

impl CloseConfigPda {
    /// Match the exact account arity; the guards run in `process`.
    pub fn try_from(accounts: Vec<Account>) -> (r: Result<CloseConfigPda, MyError>)
        ensures
            match r {
                Ok(t) => {
                    &&& accounts@.len() == 3
                    &&& t.authority == accounts@[0]
                    &&& t.pda == accounts@[1]
                    &&& t.dest == accounts@[2]
                },
                Err(e) => e == MyError::NotEnoughAccountKeys && accounts@.len() != 3,
            },
    {
        let mut v = accounts;
        if v.len() != 3 {
            return Err(MyError::NotEnoughAccountKeys);
        }
        let dest = v.pop().unwrap();
        let pda = v.pop().unwrap();
        let authority = v.pop().unwrap();
        Ok(CloseConfigPda { authority, pda, dest })
    }

    /// Close the record: only the admin or the owner may; the record is
    /// invalidated, its whole balance moves to the destination, and the slot
    /// is released.
    pub fn process(&mut self) -> (r: Result<(), MyError>)
        ensures
            match r {
                Ok(_) => {
                    &&& spec_close_err(*old(self)) is None
                    &&& final(self).pda.data@.len() == 0
                    &&& final(self).pda.lamports == 0
                    &&& final(self).dest.lamports == old(self).dest.lamports + old(self).pda.lamports
                    &&& final(self).dest.key == old(self).dest.key
                    &&& final(self).pda.key == old(self).pda.key
                    &&& final(self).authority == old(self).authority
                },
                Err(e) => *final(self) == *old(self) && spec_close_err(*old(self)) == Some(e),
            },
    {
        check_signer(&self.authority)?;
        writable(&self.pda)?;
        if !addr_eq(&self.pda.owner, &PROGRAM_ID) {
            return Err(MyError::ForeignPDA);
        }
        let config2 = Config2::load(&self.pda)?;
        if !addr_eq(&config2.admin, &self.authority.key) && !addr_eq(
            &config2.prog_owner,
            &self.authority.key,
        ) {
            return Err(MyError::IncorrectAuthority);
        }
        if self.dest.lamports > u64::MAX - self.pda.lamports {
            return Err(MyError::ArithmeticOverflow);
        }
        self.dest.lamports = self.dest.lamports + self.pda.lamports;
        self.pda.lamports = 0;
        self.pda.data = Vec::new();
        Ok(())
    }
}

} // verus!
