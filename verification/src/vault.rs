//! The lamport vault: deposits create the per-owner vault slot lazily (the
//! idempotent ensure pattern) and withdrawals leave the minimum-retention
//! balance in place.

use crate::account::Account;
use crate::addr::{addr_eq, derive_pda1, pda_derivation, tag_owner_seeds, VAULT_SEED};
use crate::errors::MyError;
use crate::escrow::res_err;
use crate::guards::{check_signer, spec_check_pda};
use crate::parse::spec_parse_u64;
use crate::PROGRAM_ID;
use vstd::prelude::*;

verus! {

/// Payload size of a freshly created vault slot.
pub const VAULT_SIZE: usize = 16;

/// What the vault ensure step answers before mutating anything: an unfunded
/// slot must sit at the derived vault address; a funded one must be owned by
/// this program.
pub open spec fn spec_ensure_vault_err(user: Account, vault: Account, rent_min: u64) -> Option<
    MyError,
> {
    if !user.is_signer {
        Some(MyError::NotSigner)
    } else if vault.lamports == 0 {
        match pda_derivation(tag_owner_seeds(VAULT_SEED@, user.key@), PROGRAM_ID@) {
            None => Some(MyError::InvalidSeeds),
            Some(p) => if vault.key@ != p.0 {
                Some(MyError::InvalidAccountData)
            } else if user.lamports < rent_min {
                Some(MyError::InsufficientFunds)
            } else {
                None
            },
        }
    } else {
        match spec_check_pda(vault) {
            Err(e) => Some(e),
            Ok(_) => None,
        }
    }
}

/// Ensure the caller's vault exists: when the slot is unfunded, verify it is
/// the derived vault address and create it at the minimum-retention balance,
/// paid by the caller; otherwise validate the existing slot.  Answers whether
/// the vault was created.
pub fn ensure_vault_exists(user: &mut Account, vault: &mut Account, rent_min: u64) -> (r: Result<
    bool,
    MyError,
>)
    ensures
        match r {
            Ok(created) => {
                &&& spec_ensure_vault_err(*old(user), *old(vault), rent_min) is None
                &&& created == (old(vault).lamports == 0)
                &&& !created ==> *final(vault) == *old(vault) && *final(user) == *old(user)
                &&& created ==> {
                    &&& final(vault).lamports == rent_min
                    &&& final(vault).owner@ == PROGRAM_ID@
                    &&& final(vault).data@.len() == VAULT_SIZE
                    &&& final(vault).key == old(vault).key
                    &&& final(user).lamports == old(user).lamports - rent_min
                    &&& final(user).key == old(user).key
                    &&& final(user).data == old(user).data
                }
            },
            Err(e) => *final(vault) == *old(vault) && *final(user) == *old(user)
                && spec_ensure_vault_err(*old(user), *old(vault), rent_min) == Some(e),
        },
{
    check_signer(user)?;
    if vault.lamports == 0 {
        let derived = derive_pda1(VAULT_SEED.as_slice(), &user.key)?;
        if !addr_eq(&vault.key, &derived.0) {
            return Err(MyError::InvalidAccountData);
        }
        if user.lamports < rent_min {
            return Err(MyError::InsufficientFunds);
        }
        user.lamports = user.lamports - rent_min;
        vault.lamports = rent_min;
        vault.owner = PROGRAM_ID;
        let mut d: Vec<u8> = Vec::new();
        crate::account::push_zeros(&mut d, VAULT_SIZE);
        vault.data = d;
        Ok(true)
    } else {
        match crate::guards::check_pda(vault) {
            Ok(_) => Ok(false),
            Err(e) => Err(e),
        }
    }
}

/// Running the vault ensure step on a slot a successful ensure left behind
/// falls through to validation: the slot is funded and program-owned, so no
/// second creation happens and nothing changes.
pub proof fn lemma_ensure_vault_idempotent(user: Account, vault: Account, rent_min: u64)
    requires
        user.is_signer,
        vault.lamports > 0,
        vault.owner@ == PROGRAM_ID@,
    ensures
        spec_ensure_vault_err(user, vault, rent_min) is None,
        vault.lamports != 0,
{
}

/// The Deposit instruction: ensure the vault, then move the amount from the
/// caller into it.
pub struct DepositSol {
    pub user: Account,
    pub vault: Account,
    pub system_program: Account,
    pub amount: u64,
}

/// The first failing check of Deposit's validation, in order.
pub open spec fn spec_deposit_try_err(data: Seq<u8>, a: Seq<Account>) -> Option<MyError> {
    if a.len() != 3 {
        Some(MyError::NotEnoughAccountKeys)
    } else {
        res_err(spec_parse_u64(data))
    }
}

/// The first failing check of Deposit's state transition, in order.
pub open spec fn spec_deposit_process_err(s: DepositSol, rent_min: u64) -> Option<MyError> {
    match spec_ensure_vault_err(s.user, s.vault, rent_min) {
        Some(e) => Some(e),
        None => {
            let paid = if s.vault.lamports == 0 {
                rent_min as int
            } else {
                0int
            };
            if s.user.lamports - paid < s.amount {
                Some(MyError::InsufficientFunds)
            } else if s.vault.lamports + paid + s.amount > u64::MAX {
                Some(MyError::ArithmeticOverflow)
            } else {
                None
            }
        },
    }
}

impl DepositSol {
    /// Match the exact account arity and parse the nonzero amount.
    pub fn try_from(data: &[u8], accounts: Vec<Account>) -> (r: Result<DepositSol, MyError>)
        ensures
            match r {
                Ok(t) => {
                    &&& spec_deposit_try_err(data@, accounts@) is None
                    &&& t.user == accounts@[0]
                    &&& t.vault == accounts@[1]
                    &&& t.system_program == accounts@[2]
                    &&& Ok::<u64, MyError>(t.amount) == spec_parse_u64(data@)
                    &&& t.amount > 0
                },
                Err(e) => spec_deposit_try_err(data@, accounts@) == Some(e),
            },
    {
        let mut v = accounts;
        if v.len() != 3 {
            return Err(MyError::NotEnoughAccountKeys);
        }
        let system_program = v.pop().unwrap();
        let vault = v.pop().unwrap();
        let user = v.pop().unwrap();
        let amount = crate::parse::parse_u64(data)?;
        Ok(DepositSol { user, vault, system_program, amount })
    }

    /// Deposit: ensure the vault exists (idempotent create), then move the
    /// amount from the caller to the vault.  All checks precede the first
    /// mutation.
    pub fn process(&mut self, rent_min: u64) -> (r: Result<(), MyError>)
        ensures
            match r {
                Ok(_) => {
                    let created = old(self).vault.lamports == 0;
                    let paid = if created {
                        rent_min as int
                    } else {
                        0int
                    };
                    &&& spec_deposit_process_err(*old(self), rent_min) is None
                    &&& final(self).vault.lamports == old(self).vault.lamports + paid + old(
                        self,
                    ).amount
                    &&& final(self).user.lamports == old(self).user.lamports - paid - old(
                        self,
                    ).amount
                    &&& created ==> final(self).vault.owner@ == PROGRAM_ID@
                        && final(self).vault.data@.len() == VAULT_SIZE
                    &&& !created ==> final(self).vault.data == old(self).vault.data
                        && final(self).vault.owner == old(self).vault.owner
                    &&& final(self).vault.key == old(self).vault.key
                    &&& final(self).user.key == old(self).user.key
                    &&& final(self).system_program == old(self).system_program
                    &&& final(self).amount == old(self).amount
                },
                Err(e) => *final(self) == *old(self) && spec_deposit_process_err(
                    *old(self),
                    rent_min,
                ) == Some(e),
            },
    {
        // pre-check the whole transition before mutating anything
        if !self.user.is_signer {
            return Err(MyError::NotSigner);
        }
        let creating = self.vault.lamports == 0;
        if creating {
            let derived = derive_pda1(VAULT_SEED.as_slice(), &self.user.key)?;
            if !addr_eq(&self.vault.key, &derived.0) {
                return Err(MyError::InvalidAccountData);
            }
            if self.user.lamports < rent_min {
                return Err(MyError::InsufficientFunds);
            }
        } else {
            match crate::guards::check_pda(&self.vault) {
                Ok(_) => {},
                Err(e) => { return Err(e) },
            }
        }
        let paid: u64 = if creating {
            rent_min
        } else {
            0
        };
        if self.user.lamports - paid < self.amount {
            return Err(MyError::InsufficientFunds);
        }
        if self.vault.lamports > u64::MAX - paid || self.vault.lamports + paid > u64::MAX
            - self.amount {
            return Err(MyError::ArithmeticOverflow);
        }
        let created = match ensure_vault_exists(&mut self.user, &mut self.vault, rent_min) {
            Ok(c) => c,
            Err(e) => { return Err(e) },
        };
        self.user.lamports = self.user.lamports - self.amount;
        self.vault.lamports = self.vault.lamports + self.amount;
        let _ = created;
        Ok(())
    }
}

/// The Withdraw instruction: move lamports out of the vault, leaving the
/// minimum-retention balance in place.
pub struct WithdrawSol {
    pub user: Account,
    pub vault: Account,
    pub amount: u64,
}

/// The first failing check of Withdraw's validation, in order.
pub open spec fn spec_withdraw_try_err(data: Seq<u8>, a: Seq<Account>) -> Option<MyError> {
    if a.len() != 2 {
        Some(MyError::NotEnoughAccountKeys)
    } else {
        res_err(spec_parse_u64(data))
    }
}

/// The first failing check of Withdraw's state transition, in order: the
/// vault must be this program's, sit at the derived address, and keep more
/// than the minimum-retention balance after the withdrawal.
pub open spec fn spec_withdraw_process_err(s: WithdrawSol, rent_min: u64) -> Option<MyError> {
    if !s.user.is_signer {
        Some(MyError::NotSigner)
    } else if spec_check_pda(s.vault) is Err {
        match spec_check_pda(s.vault) {
            Err(e) => Some(e),
            Ok(_) => None,
        }
    } else {
        match pda_derivation(tag_owner_seeds(VAULT_SEED@, s.user.key@), PROGRAM_ID@) {
            None => Some(MyError::InvalidSeeds),
            Some(p) => if s.vault.key@ != p.0 {
                Some(MyError::InvalidAccountData)
            } else if s.vault.lamports <= rent_min {
                Some(MyError::AccountNotRentExempt)
            } else if rent_min + s.amount > u64::MAX {
                Some(MyError::ArithmeticOverflow)
            } else if s.vault.lamports <= rent_min + s.amount {
                Some(MyError::InsufficientFunds)
            } else if s.user.lamports + s.amount > u64::MAX {
                Some(MyError::InsufficientFunds)
            } else {
                None
            },
        }
    }
}

impl WithdrawSol {
    /// Match the exact account arity and parse the nonzero amount.
    pub fn try_from(data: &[u8], accounts: Vec<Account>) -> (r: Result<WithdrawSol, MyError>)
        ensures
            match r {
                Ok(t) => {
                    &&& spec_withdraw_try_err(data@, accounts@) is None
                    &&& t.user == accounts@[0]
                    &&& t.vault == accounts@[1]
                    &&& Ok::<u64, MyError>(t.amount) == spec_parse_u64(data@)
                    &&& t.amount > 0
                },
                Err(e) => spec_withdraw_try_err(data@, accounts@) == Some(e),
            },
    {
        let mut v = accounts;
        if v.len() != 2 {
            return Err(MyError::NotEnoughAccountKeys);
        }
        let vault = v.pop().unwrap();
        let user = v.pop().unwrap();
        let amount = crate::parse::parse_u64(data)?;
        Ok(WithdrawSol { user, vault, amount })
    }

    /// Withdraw: the signer must own the derived vault, and the vault keeps
    /// strictly more than the minimum-retention balance afterwards.
    pub fn process(&mut self, rent_min: u64) -> (r: Result<(), MyError>)
        ensures
            match r {
                Ok(_) => {
                    &&& spec_withdraw_process_err(*old(self), rent_min) is None
                    &&& final(self).vault.lamports == old(self).vault.lamports - old(self).amount
                    &&& final(self).vault.lamports > rent_min
                    &&& final(self).user.lamports == old(self).user.lamports + old(self).amount
                    &&& final(self).vault.data == old(self).vault.data
                    &&& final(self).vault.key == old(self).vault.key
                    &&& final(self).vault.owner == old(self).vault.owner
                    &&& final(self).user.key == old(self).user.key
                    &&& final(self).amount == old(self).amount
                },
                Err(e) => *final(self) == *old(self) && spec_withdraw_process_err(
                    *old(self),
                    rent_min,
                ) == Some(e),
            },
    {
        if !self.user.is_signer {
            return Err(MyError::NotSigner);
        }
        match crate::guards::check_pda(&self.vault) {
            Ok(_) => {},
            Err(e) => { return Err(e) },
        }
        let derived = derive_pda1(VAULT_SEED.as_slice(), &self.user.key)?;
        if !addr_eq(&self.vault.key, &derived.0) {
            return Err(MyError::InvalidAccountData);
        }
        if self.vault.lamports <= rent_min {
            return Err(MyError::AccountNotRentExempt);
        }
        if rent_min > u64::MAX - self.amount {
            return Err(MyError::ArithmeticOverflow);
        }
        if self.vault.lamports <= rent_min + self.amount {
            return Err(MyError::InsufficientFunds);
        }
        if self.user.lamports > u64::MAX - self.amount {
            return Err(MyError::InsufficientFunds);
        }
        self.vault.lamports = self.vault.lamports - self.amount;
        self.user.lamports = self.user.lamports + self.amount;
        Ok(())
    }
}

} // verus!
