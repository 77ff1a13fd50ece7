//! Guarded token movements outside the escrow: users deposit tokens to a
//! wallet's account, pay into or redeem from the owner's vault, withdraw
//! under the vault's derived authority, and the mint authority mints new
//! supply.  Each handler runs its whole guard sequence before the first
//! mutation.

use crate::account::{
    mint_set_supply, spec_mint_authority, spec_mint_decimals, spec_mint_has_authority,
    spec_mint_supply, spec_ta_amount, spec_ta_mint, spec_ta_owner, ta_amount, ta_set_amount,
    Account, MINT_LEN, TOKEN_ACCOUNT_LEN,
};
use crate::addr::{addr_eq, derive_pda1, pda_derivation, tag_owner_seeds, VAULT_SEED};
use crate::config::{Config2, CONFIG_LEN};
use crate::errors::MyError;
use crate::escrow::{
    ensure_ata, guard_err, res_err, spec_ensure_ata_amount, spec_ensure_ata_err,
    spec_ensure_ata_lamports,
};
use crate::guards::{
    ata_balc, check_ata_keys, check_decimals, check_mint0a, check_pda, check_signer,
    check_sysprog, executable, spec_ata_balc, spec_check_ata, spec_check_decimals,
    spec_check_mint0a, spec_check_pda, writable,
};
use crate::parse::{min_data_len, read_u64_le, spec_parse_u64};
use crate::PROGRAM_ID;
use vstd::prelude::*;

verus! {

/// Users deposit tokens into a wallet's token account.
pub struct TokLgcDeposit {
    pub user: Account,
    pub from_ata: Account,
    pub to_ata: Account,
    pub to_wallet: Account,
    pub mint: Account,
    pub token_program: Account,
    pub system_program: Account,
    pub atoken_program: Account,
    pub decimals: u8,
    pub amount: u64,
}

/// The first failing check of the deposit's payload parse, in order.
pub open spec fn spec_tok_deposit_try_err(data: Seq<u8>, a: Seq<Account>) -> Option<MyError> {
    if a.len() != 8 {
        Some(MyError::NotEnoughAccountKeys)
    } else if data.len() < 9 {
        Some(MyError::InputDataLen)
    } else {
        res_err(spec_parse_u64(data.subrange(1, 9)))
    }
}

/// The first failing check of the deposit's guard sequence, in order.
pub open spec fn spec_tok_deposit_process_err(
    s: TokLgcDeposit,
    rent_min_mint: u64,
    rent_min_tokacct: u64,
) -> Option<MyError> {
    if !s.user.is_signer {
        Some(MyError::NotSigner)
    } else if !s.token_program.executable {
        Some(MyError::NotExecutable)
    } else if !s.from_ata.is_writable {
        Some(MyError::NotWritable)
    } else if spec_check_ata(s.from_ata, s.user.key@, s.mint.key@) is Err {
        guard_err(spec_check_ata(s.from_ata, s.user.key@, s.mint.key@))
    } else if s.mint.lamports < rent_min_mint {
        Some(MyError::NotRentExamptMint22)
    } else if spec_check_decimals(s.mint, s.decimals) is Err {
        guard_err(spec_check_decimals(s.mint, s.decimals))
    } else if spec_check_mint0a(s.mint, s.token_program) is Err {
        guard_err(spec_check_mint0a(s.mint, s.token_program))
    } else if s.system_program.key@ != crate::addr::SYSTEM_PROGRAM_ID@ {
        Some(MyError::SystemProgram)
    } else if spec_check_pda(s.to_wallet) is Err {
        guard_err(spec_check_pda(s.to_wallet))
    } else if spec_ensure_ata_err(s.to_ata, s.to_wallet.key@, s.mint.key@) is Some {
        spec_ensure_ata_err(s.to_ata, s.to_wallet.key@, s.mint.key@)
    } else if !s.to_ata.is_writable {
        Some(MyError::NotWritable)
    } else if spec_ensure_ata_lamports(s.to_ata, rent_min_tokacct) < rent_min_tokacct {
        Some(MyError::NotRentExamptTokAcct22)
    } else if spec_ta_amount(s.from_ata.data@) < s.amount {
        Some(MyError::MathUnderflow)
    } else if spec_ensure_ata_amount(s.to_ata) + s.amount > u64::MAX {
        Some(MyError::ArithmeticOverflow)
    } else if s.to_ata.data@.len() == 0 && s.user.lamports < rent_min_tokacct {
        Some(MyError::InsufficientFunds)
    } else {
        None
    }
}

impl TokLgcDeposit {
    /// The shape every parsed deposit carries into `process`.
    pub open spec fn wf(self) -> bool {
        self.amount > 0
    }

    /// Match the exact account arity and parse decimals and the nonzero
    /// amount.
    pub fn try_from(data: &[u8], accounts: Vec<Account>) -> (r: Result<TokLgcDeposit, MyError>)
        ensures
            match r {
                Ok(t) => {
                    &&& spec_tok_deposit_try_err(data@, accounts@) is None
                    &&& t.wf()
                    &&& t.user == accounts@[0]
                    &&& t.from_ata == accounts@[1]
                    &&& t.to_ata == accounts@[2]
                    &&& t.to_wallet == accounts@[3]
                    &&& t.mint == accounts@[4]
                    &&& t.token_program == accounts@[5]
                    &&& t.system_program == accounts@[6]
                    &&& t.atoken_program == accounts@[7]
                    &&& t.decimals == data@[0]
                    &&& Ok::<u64, MyError>(t.amount) == spec_parse_u64(data@.subrange(1, 9))
                },
                Err(e) => spec_tok_deposit_try_err(data@, accounts@) == Some(e),
            },
    {
        let mut v = accounts;
        if v.len() != 8 {
            return Err(MyError::NotEnoughAccountKeys);
        }
        let atoken_program = v.pop().unwrap();
        let system_program = v.pop().unwrap();
        let token_program = v.pop().unwrap();
        let mint = v.pop().unwrap();
        let to_wallet = v.pop().unwrap();
        let to_ata = v.pop().unwrap();
        let from_ata = v.pop().unwrap();
        let user = v.pop().unwrap();
        min_data_len(data, 9)?;
        let decimals = data[0];
        let amount = read_u64_le(data, 1);
        if amount == 0 {
            return Err(MyError::ZeroAsInput);
        }
        Ok(TokLgcDeposit {
            user,
            from_ata,
            to_ata,
            to_wallet,
            mint,
            token_program,
            system_program,
            atoken_program,
            decimals,
            amount,
        })
    }

    /// Run the guard sequence, ensure the receiving token account, and move
    /// the amount from the user's account into it.
    pub fn process(&mut self, rent_min_mint: u64, rent_min_tokacct: u64) -> (r: Result<
        bool,
        MyError,
    >)
        requires
            old(self).wf(),
        ensures
            match r {
                Ok(created) => {
                    &&& spec_tok_deposit_process_err(*old(self), rent_min_mint, rent_min_tokacct)
                        is None
                    &&& created == (old(self).to_ata.data@.len() == 0)
                    &&& spec_ta_amount(final(self).from_ata.data@) == spec_ta_amount(
                        old(self).from_ata.data@,
                    ) - old(self).amount
                    &&& spec_ta_amount(final(self).to_ata.data@) == spec_ensure_ata_amount(
                        old(self).to_ata,
                    ) + old(self).amount
                    &&& spec_ta_mint(final(self).to_ata.data@) == old(self).mint.key@
                    &&& spec_ta_owner(final(self).to_ata.data@) == old(self).to_wallet.key@
                    &&& final(self).user.lamports == old(self).user.lamports - (
                    if created {
                        rent_min_tokacct as int
                    } else {
                        0int
                    })
                    &&& final(self).mint == old(self).mint
                    &&& final(self).to_wallet == old(self).to_wallet
                    &&& final(self).amount == old(self).amount
                },
                Err(e) => *final(self) == *old(self) && spec_tok_deposit_process_err(
                    *old(self),
                    rent_min_mint,
                    rent_min_tokacct,
                ) == Some(e),
            },
    {
        check_signer(&self.user)?;
        executable(&self.token_program)?;
        writable(&self.from_ata)?;
        check_ata_keys(&self.from_ata, &self.user.key, &self.mint.key)?;
        if self.mint.lamports < rent_min_mint {
            return Err(MyError::NotRentExamptMint22);
        }
        check_decimals(&self.mint, self.decimals)?;
        check_mint0a(&self.mint, &self.token_program)?;
        check_sysprog(&self.system_program)?;
        check_pda(&self.to_wallet)?;
        let creating = self.to_ata.data.len() == 0;
        if !creating {
            check_ata_keys(&self.to_ata, &self.to_wallet.key, &self.mint.key)?;
        }
        if !self.to_ata.is_writable {
            return Err(MyError::NotWritable);
        }
        if !creating && self.to_ata.lamports < rent_min_tokacct {
            return Err(MyError::NotRentExamptTokAcct22);
        }
        let from_bal = ta_amount(&self.from_ata.data);
        if from_bal < self.amount {
            return Err(MyError::MathUnderflow);
        }
        let to_bal = if creating {
            0u64
        } else {
            ta_amount(&self.to_ata.data)
        };
        if to_bal > u64::MAX - self.amount {
            return Err(MyError::ArithmeticOverflow);
        }
        if creating && self.user.lamports < rent_min_tokacct {
            return Err(MyError::InsufficientFunds);
        }
        // every check has passed: apply the whole transition
        let wallet_key = self.to_wallet.key;
        let mint_key = self.mint.key;
        let created = match ensure_ata(&mut self.to_ata, &wallet_key, &mint_key, rent_min_tokacct)
            {
            Ok(c) => c,
            Err(e) => { return Err(e) },
        };
        if created {
            self.user.lamports = self.user.lamports - rent_min_tokacct;
        }
        ta_set_amount(&mut self.from_ata.data, from_bal - self.amount);
        ta_set_amount(&mut self.to_ata.data, to_bal + self.amount);
        Ok(created)
    }
}


/// The first failing check of the shared move step (ensure the receiving
/// account, then transfer), in order; `None` when the move succeeds.  The
/// payer funds the receiving account's creation.
pub open spec fn spec_tok_move_err(
    to_ata: Account,
    wallet: Seq<u8>,
    mint: Seq<u8>,
    from_data: Seq<u8>,
    amount: u64,
    payer_lamports: u64,
    rent_min_tokacct: u64,
) -> Option<MyError> {
    if spec_ensure_ata_err(to_ata, wallet, mint) is Some {
        spec_ensure_ata_err(to_ata, wallet, mint)
    } else if !to_ata.is_writable {
        Some(MyError::NotWritable)
    } else if spec_ensure_ata_lamports(to_ata, rent_min_tokacct) < rent_min_tokacct {
        Some(MyError::NotRentExamptTokAcct22)
    } else if spec_ta_amount(from_data) < amount {
        Some(MyError::MathUnderflow)
    } else if spec_ensure_ata_amount(to_ata) + amount > u64::MAX {
        Some(MyError::ArithmeticOverflow)
    } else if to_ata.data@.len() == 0 && payer_lamports < rent_min_tokacct {
        Some(MyError::InsufficientFunds)
    } else {
        None
    }
}

/// Users withdraw tokens held under the vault's derived authority into their
/// own token account.
pub struct TokLgcWithdraw {
    pub user: Account,
    pub from_ata: Account,
    pub to_ata: Account,
    pub vault: Account,
    pub mint: Account,
    pub token_program: Account,
    pub system_program: Account,
    pub atoken_program: Account,
    pub vault_bump: u8,
    pub decimals: u8,
    pub amount: u64,
}

/// The first failing check of the withdraw's validation, in order.
pub open spec fn spec_tok_withdraw_try_err(
    data: Seq<u8>,
    a: Seq<Account>,
    rent_min_mint: u64,
) -> Option<MyError> {
    if a.len() != 8 {
        Some(MyError::NotEnoughAccountKeys)
    } else {
        let user = a[0];
        let from_ata = a[1];
        let vault = a[3];
        let mint = a[4];
        let token_program = a[5];
        let system_program = a[6];
        if !user.is_signer {
            Some(MyError::NotSigner)
        } else if !token_program.executable {
            Some(MyError::NotExecutable)
        } else if system_program.key@ != crate::addr::SYSTEM_PROGRAM_ID@ {
            Some(MyError::SystemProgram)
        } else if !from_ata.is_writable {
            Some(MyError::NotWritable)
        } else if spec_check_ata(from_ata, vault.key@, mint.key@) is Err {
            guard_err(spec_check_ata(from_ata, vault.key@, mint.key@))
        } else if data.len() != 9 {
            Some(MyError::InputDataLen)
        } else if spec_parse_u64(data.subrange(1, 9)) is Err {
            res_err(spec_parse_u64(data.subrange(1, 9)))
        } else if spec_ata_balc(from_ata, spec_parse_u64(data.subrange(1, 9))->Ok_0) is Err {
            guard_err(spec_ata_balc(from_ata, spec_parse_u64(data.subrange(1, 9))->Ok_0))
        } else {
            match pda_derivation(tag_owner_seeds(VAULT_SEED@, user.key@), PROGRAM_ID@) {
                None => Some(MyError::InvalidSeeds),
                Some(p) => if vault.key@ != p.0 {
                    Some(MyError::VaultPDA)
                } else if mint.lamports < rent_min_mint {
                    Some(MyError::NotRentExamptMint22)
                } else if spec_check_decimals(mint, data[0]) is Err {
                    guard_err(spec_check_decimals(mint, data[0]))
                } else if spec_check_mint0a(mint, token_program) is Err {
                    guard_err(spec_check_mint0a(mint, token_program))
                } else {
                    None
                },
            }
        }
    }
}

impl TokLgcWithdraw {
    /// The shape every parsed withdraw carries into `process`.
    pub open spec fn wf(self) -> bool {
        &&& self.from_ata.data@.len() == TOKEN_ACCOUNT_LEN
        &&& self.amount > 0
    }

    /// Match the exact account arity, run the guard sequence (the source
    /// account belongs to the caller's derived vault), and parse the amount.
    pub fn try_from(data: &[u8], accounts: Vec<Account>, rent_min_mint: u64) -> (r: Result<
        TokLgcWithdraw,
        MyError,
    >)
        ensures
            match r {
                Ok(t) => {
                    &&& spec_tok_withdraw_try_err(data@, accounts@, rent_min_mint) is None
                    &&& t.wf()
                    &&& t.user == accounts@[0]
                    &&& t.from_ata == accounts@[1]
                    &&& t.to_ata == accounts@[2]
                    &&& t.vault == accounts@[3]
                    &&& t.mint == accounts@[4]
                    &&& t.token_program == accounts@[5]
                    &&& t.system_program == accounts@[6]
                    &&& t.atoken_program == accounts@[7]
                    &&& t.decimals == data@[0]
                    &&& Ok::<u64, MyError>(t.amount) == spec_parse_u64(data@.subrange(1, 9))
                    &&& Some((t.vault.key@, t.vault_bump)) == pda_derivation(
                        tag_owner_seeds(VAULT_SEED@, t.user.key@),
                        PROGRAM_ID@,
                    )
                },
                Err(e) => spec_tok_withdraw_try_err(data@, accounts@, rent_min_mint) == Some(e),
            },
    {
        let mut v = accounts;
        if v.len() != 8 {
            return Err(MyError::NotEnoughAccountKeys);
        }
        let atoken_program = v.pop().unwrap();
        let system_program = v.pop().unwrap();
        let token_program = v.pop().unwrap();
        let mint = v.pop().unwrap();
        let vault = v.pop().unwrap();
        let to_ata = v.pop().unwrap();
        let from_ata = v.pop().unwrap();
        let user = v.pop().unwrap();
        check_signer(&user)?;
        executable(&token_program)?;
        check_sysprog(&system_program)?;
        writable(&from_ata)?;
        check_ata_keys(&from_ata, &vault.key, &mint.key)?;
        crate::parse::check_data_len(data, 9)?;
        let decimals = data[0];
        let amount = read_u64_le(data, 1);
        if amount == 0 {
            return Err(MyError::ZeroAsInput);
        }
        ata_balc(&from_ata, amount)?;
        let derived = derive_pda1(VAULT_SEED.as_slice(), &user.key)?;
        if !addr_eq(&vault.key, &derived.0) {
            return Err(MyError::VaultPDA);
        }
        if mint.lamports < rent_min_mint {
            return Err(MyError::NotRentExamptMint22);
        }
        check_decimals(&mint, decimals)?;
        check_mint0a(&mint, &token_program)?;
        Ok(TokLgcWithdraw {
            user,
            from_ata,
            to_ata,
            vault,
            mint,
            token_program,
            system_program,
            atoken_program,
            vault_bump: derived.1,
            decimals,
            amount,
        })
    }

    /// Ensure the caller's receiving token account and move the amount out of
    /// the vault-held account under the vault's derived authority.
    pub fn process(&mut self, rent_min_tokacct: u64) -> (r: Result<bool, MyError>)
        requires
            old(self).wf(),
        ensures
            match r {
                Ok(created) => {
                    &&& created == (old(self).to_ata.data@.len() == 0)
                    &&& spec_ta_amount(final(self).from_ata.data@) == spec_ta_amount(
                        old(self).from_ata.data@,
                    ) - old(self).amount
                    &&& spec_ta_amount(final(self).to_ata.data@) == spec_ensure_ata_amount(
                        old(self).to_ata,
                    ) + old(self).amount
                    &&& spec_ta_mint(final(self).to_ata.data@) == old(self).mint.key@
                    &&& spec_ta_owner(final(self).to_ata.data@) == old(self).user.key@
                    &&& final(self).user.lamports == old(self).user.lamports - (
                    if created {
                        rent_min_tokacct as int
                    } else {
                        0int
                    })
                    &&& final(self).vault == old(self).vault
                    &&& final(self).mint == old(self).mint
                    &&& final(self).amount == old(self).amount
                },
                Err(e) => *final(self) == *old(self) && spec_tok_move_err(
                    old(self).to_ata,
                    old(self).user.key@,
                    old(self).mint.key@,
                    old(self).from_ata.data@,
                    old(self).amount,
                    old(self).user.lamports,
                    rent_min_tokacct,
                ) == Some(e),
            },
    {
        let creating = self.to_ata.data.len() == 0;
        if !creating {
            check_ata_keys(&self.to_ata, &self.user.key, &self.mint.key)?;
        }
        if !self.to_ata.is_writable {
            return Err(MyError::NotWritable);
        }
        if !creating && self.to_ata.lamports < rent_min_tokacct {
            return Err(MyError::NotRentExamptTokAcct22);
        }
        let from_bal = ta_amount(&self.from_ata.data);
        if from_bal < self.amount {
            return Err(MyError::MathUnderflow);
        }
        let to_bal = if creating {
            0u64
        } else {
            ta_amount(&self.to_ata.data)
        };
        if to_bal > u64::MAX - self.amount {
            return Err(MyError::ArithmeticOverflow);
        }
        if creating && self.user.lamports < rent_min_tokacct {
            return Err(MyError::InsufficientFunds);
        }
        let user_key = self.user.key;
        let mint_key = self.mint.key;
        let created = match ensure_ata(&mut self.to_ata, &user_key, &mint_key, rent_min_tokacct) {
            Ok(c) => c,
            Err(e) => { return Err(e) },
        };
        if created {
            self.user.lamports = self.user.lamports - rent_min_tokacct;
        }
        ta_set_amount(&mut self.from_ata.data, from_bal - self.amount);
        ta_set_amount(&mut self.to_ata.data, to_bal + self.amount);
        Ok(created)
    }
}

/// The mint authority mints new supply into a wallet's token account.
pub struct TokLgcMintToken {
    pub mint_authority: Account,
    pub to_wallet: Account,
    pub mint: Account,
    pub token_account: Account,
    pub token_program: Account,
    pub system_program: Account,
    pub atoken_program: Account,
    pub decimals: u8,
    pub amount: u64,
}

/// The first failing check of minting, in order: the signer must be the
/// mint's recorded authority, and minting grows both the supply and the
/// receiving balance.
pub open spec fn spec_mint_token_process_err(
    s: TokLgcMintToken,
    rent_min_mint: u64,
    rent_min_tokacct: u64,
) -> Option<MyError> {
    if !s.mint_authority.is_signer {
        Some(MyError::NotSigner)
    } else if s.mint.lamports < rent_min_mint {
        Some(MyError::NotRentExamptMint22)
    } else if !s.token_program.executable {
        Some(MyError::NotExecutable)
    } else if s.mint.owner@ != s.token_program.key@ {
        Some(MyError::InvalidAccountData)
    } else if s.mint.data@.len() != MINT_LEN {
        Some(MyError::InvalidAccountData)
    } else if spec_mint_has_authority(s.mint.data@) && spec_mint_authority(s.mint.data@)
        != s.mint_authority.key@ {
        Some(MyError::IncorrectAuthority)
    } else if s.system_program.key@ != crate::addr::SYSTEM_PROGRAM_ID@ {
        Some(MyError::SystemProgram)
    } else if s.token_account.data@.len() != 0 && s.token_account.data@.len()
        != TOKEN_ACCOUNT_LEN {
        Some(MyError::TokAcctDataLen)
    } else if s.token_account.data@.len() != 0 && spec_ta_owner(s.token_account.data@)
        != s.to_wallet.key@ {
        Some(MyError::InvalidAccountData)
    } else if s.token_account.data@.len() != 0 && spec_ta_mint(s.token_account.data@)
        != s.mint.key@ {
        Some(MyError::AtaOrMint)
    } else if !s.token_account.is_writable {
        Some(MyError::NotWritable)
    } else if s.token_account.data@.len() != 0 && s.token_account.lamports < rent_min_tokacct {
        Some(MyError::NotRentExamptTokAcct22)
    } else if s.decimals != spec_mint_decimals(s.mint.data@) {
        Some(MyError::DecimalsValue)
    } else if spec_mint_supply(s.mint.data@) + s.amount > u64::MAX {
        Some(MyError::ArithmeticOverflow)
    } else if (if s.token_account.data@.len() == 0 {
        0u64
    } else {
        spec_ta_amount(s.token_account.data@)
    }) + s.amount > u64::MAX {
        Some(MyError::ArithmeticOverflow)
    } else if s.token_account.data@.len() == 0 && s.mint_authority.lamports < rent_min_tokacct {
        Some(MyError::InsufficientFunds)
    } else {
        None
    }
}

impl TokLgcMintToken {
    /// Match the exact account arity and parse decimals and the nonzero
    /// amount.
    pub fn try_from(data: &[u8], accounts: Vec<Account>) -> (r: Result<TokLgcMintToken, MyError>)
        ensures
            match r {
                Ok(t) => {
                    &&& accounts@.len() == 7
                    &&& t.mint_authority == accounts@[0]
                    &&& t.to_wallet == accounts@[1]
                    &&& t.mint == accounts@[2]
                    &&& t.token_account == accounts@[3]
                    &&& t.token_program == accounts@[4]
                    &&& t.system_program == accounts@[5]
                    &&& t.atoken_program == accounts@[6]
                    &&& t.decimals == data@[0]
                    &&& Ok::<u64, MyError>(t.amount) == spec_parse_u64(data@.subrange(1, 9))
                    &&& t.amount > 0
                },
                Err(e) => e == if accounts@.len() != 7 {
                    MyError::NotEnoughAccountKeys
                } else if data@.len() < 9 {
                    MyError::InputDataLen
                } else {
                    res_err(spec_parse_u64(data@.subrange(1, 9)))->Some_0
                },
            },
    {
        let mut v = accounts;
        if v.len() != 7 {
            return Err(MyError::NotEnoughAccountKeys);
        }
        let atoken_program = v.pop().unwrap();
        let system_program = v.pop().unwrap();
        let token_program = v.pop().unwrap();
        let token_account = v.pop().unwrap();
        let mint = v.pop().unwrap();
        let to_wallet = v.pop().unwrap();
        let mint_authority = v.pop().unwrap();
        min_data_len(data, 9)?;
        let decimals = data[0];
        let amount = read_u64_le(data, 1);
        if amount == 0 {
            return Err(MyError::ZeroAsInput);
        }
        Ok(TokLgcMintToken {
            mint_authority,
            to_wallet,
            mint,
            token_account,
            token_program,
            system_program,
            atoken_program,
            decimals,
            amount,
        })
    }

    /// Mint: the signer must be the mint's recorded authority; the receiving
    /// token account is ensured; the supply and the receiving balance each
    /// grow by exactly the amount.
    pub fn process(&mut self, rent_min_mint: u64, rent_min_tokacct: u64) -> (r: Result<
        bool,
        MyError,
    >)
        ensures
            match r {
                Ok(created) => {
                    &&& spec_mint_token_process_err(*old(self), rent_min_mint, rent_min_tokacct)
                        is None
                    &&& created == (old(self).token_account.data@.len() == 0)
                    &&& spec_mint_supply(final(self).mint.data@) == spec_mint_supply(
                        old(self).mint.data@,
                    ) + old(self).amount
                    &&& spec_mint_decimals(final(self).mint.data@) == spec_mint_decimals(
                        old(self).mint.data@,
                    )
                    &&& spec_ta_amount(final(self).token_account.data@) == (
                    if created {
                        0u64
                    } else {
                        spec_ta_amount(old(self).token_account.data@)
                    }) + old(self).amount
                    &&& spec_ta_mint(final(self).token_account.data@) == old(self).mint.key@
                    &&& spec_ta_owner(final(self).token_account.data@) == old(
                        self,
                    ).to_wallet.key@
                    &&& final(self).amount == old(self).amount
                },
                Err(e) => *final(self) == *old(self) && spec_mint_token_process_err(
                    *old(self),
                    rent_min_mint,
                    rent_min_tokacct,
                ) == Some(e),
            },
    {
        check_signer(&self.mint_authority)?;
        if self.mint.lamports < rent_min_mint {
            return Err(MyError::NotRentExamptMint22);
        }
        if !self.token_program.executable {
            return Err(MyError::NotExecutable);
        }
        if !addr_eq(&self.mint.owner, &self.token_program.key) {
            return Err(MyError::InvalidAccountData);
        }
        if self.mint.data.len() != MINT_LEN {
            return Err(MyError::InvalidAccountData);
        }
        match crate::account::mint_authority(&self.mint.data) {
            Some(auth) => {
                if !addr_eq(&self.mint_authority.key, &auth) {
                    return Err(MyError::IncorrectAuthority);
                }
            },
            None => {},
        }
        check_sysprog(&self.system_program)?;
        let creating = self.token_account.data.len() == 0;
        if !creating {
            if self.token_account.data.len() != TOKEN_ACCOUNT_LEN {
                return Err(MyError::TokAcctDataLen);
            }
            let owner = crate::account::ta_owner(&self.token_account.data);
            if !addr_eq(&owner, &self.to_wallet.key) {
                return Err(MyError::InvalidAccountData);
            }
            // the token program refuses to mint into an account of another mint
            let recorded_mint = crate::account::ta_mint(&self.token_account.data);
            if !addr_eq(&recorded_mint, &self.mint.key) {
                return Err(MyError::AtaOrMint);
            }
        }
        if !self.token_account.is_writable {
            return Err(MyError::NotWritable);
        }
        if !creating && self.token_account.lamports < rent_min_tokacct {
            return Err(MyError::NotRentExamptTokAcct22);
        }
        if self.decimals != crate::account::mint_decimals(&self.mint.data) {
            return Err(MyError::DecimalsValue);
        }
        let supply = crate::account::mint_supply(&self.mint.data);
        if supply > u64::MAX - self.amount {
            return Err(MyError::ArithmeticOverflow);
        }
        let to_bal = if creating {
            0u64
        } else {
            ta_amount(&self.token_account.data)
        };
        if to_bal > u64::MAX - self.amount {
            return Err(MyError::ArithmeticOverflow);
        }
        if creating && self.mint_authority.lamports < rent_min_tokacct {
            return Err(MyError::InsufficientFunds);
        }
        // every check has passed: apply the whole transition
        if creating {
            self.token_account.data = crate::account::token_account_bytes(
                &self.mint.key,
                &self.to_wallet.key,
                0,
            );
            self.token_account.owner = crate::addr::TOKEN_PROGRAM_ID;
            self.token_account.lamports = rent_min_tokacct;
            self.mint_authority.lamports = self.mint_authority.lamports - rent_min_tokacct;
        }
        mint_set_supply(&mut self.mint.data, supply + self.amount);
        ta_set_amount(&mut self.token_account.data, to_bal + self.amount);
        Ok(creating)
    }
}


/// Whether a mint is on the config record's accepted-asset allow-list.
pub open spec fn spec_config_allows(cfg: crate::config::Config2V, mint: Seq<u8>) -> bool {
    ||| cfg.mint0 == mint
    ||| cfg.mint1 == mint
    ||| cfg.mint2 == mint
    ||| cfg.mint3 == mint
}

/// Whether a loaded config record allows the mint.
fn config_allows(cfg: &Config2, mint: &[u8; 32]) -> (r: bool)
    ensures
        r == spec_config_allows(cfg@, mint@),
{
    addr_eq(&cfg.mint0, mint) || addr_eq(&cfg.mint1, mint) || addr_eq(&cfg.mint2, mint)
        || addr_eq(&cfg.mint3, mint)
}

/// Users pay tokens of an allow-listed asset into the owner's vault account.
pub struct TokLgcPay {
    pub user: Account,
    pub from_ata: Account,
    pub to_ata: Account,
    pub vault: Account,
    pub mint: Account,
    pub config_pda: Account,
    pub token_program: Account,
    pub system_program: Account,
    pub atoken_program: Account,
    pub decimals: u8,
    pub amount: u64,
}

/// The first failing check of the pay's validation, in order.
pub open spec fn spec_tok_pay_try_err(data: Seq<u8>, a: Seq<Account>, rent_min_mint: u64) -> Option<
    MyError,
> {
    if a.len() != 9 {
        Some(MyError::NotEnoughAccountKeys)
    } else {
        let user = a[0];
        let from_ata = a[1];
        let vault = a[3];
        let mint = a[4];
        let config_pda = a[5];
        let token_program = a[6];
        let system_program = a[7];
        let atoken_program = a[8];
        if !user.is_signer {
            Some(MyError::NotSigner)
        } else if !token_program.executable {
            Some(MyError::NotExecutable)
        } else if system_program.key@ != crate::addr::SYSTEM_PROGRAM_ID@ {
            Some(MyError::SystemProgram)
        } else if atoken_program.key@ != crate::addr::ATA_PROGRAM_ID@ {
            Some(MyError::AtaCheckFailed)
        } else if !vault.is_writable {
            Some(MyError::NotWritable)
        } else if !from_ata.is_writable {
            Some(MyError::NotWritable)
        } else if spec_check_ata(from_ata, user.key@, mint.key@) is Err {
            guard_err(spec_check_ata(from_ata, user.key@, mint.key@))
        } else if data.len() != 9 {
            Some(MyError::InputDataLen)
        } else if spec_parse_u64(data.subrange(1, 9)) is Err {
            res_err(spec_parse_u64(data.subrange(1, 9)))
        } else if spec_ata_balc(from_ata, spec_parse_u64(data.subrange(1, 9))->Ok_0) is Err {
            guard_err(spec_ata_balc(from_ata, spec_parse_u64(data.subrange(1, 9))->Ok_0))
        } else if Config2::spec_load(config_pda) is Err {
            match Config2::spec_load(config_pda) {
                Err(e) => Some(e),
                Ok(_) => None,
            }
        } else if !spec_config_allows(Config2::spec_load(config_pda)->Ok_0, mint.key@) {
            Some(MyError::MintNotAccepted)
        } else if vault.key@ != Config2::spec_load(config_pda)->Ok_0.vault {
            Some(MyError::VaultPDA)
        } else if mint.lamports < rent_min_mint {
            Some(MyError::NotRentExamptMint22)
        } else if spec_check_decimals(mint, data[0]) is Err {
            guard_err(spec_check_decimals(mint, data[0]))
        } else if spec_check_mint0a(mint, token_program) is Err {
            guard_err(spec_check_mint0a(mint, token_program))
        } else {
            None
        }
    }
}

impl TokLgcPay {
    /// The shape every validated pay carries into `process`.
    pub open spec fn wf(self) -> bool {
        &&& self.from_ata.data@.len() == TOKEN_ACCOUNT_LEN
        &&& self.amount > 0
    }

    /// Match the exact account arity and run the guard sequence: the mint
    /// must be on the config allow-list and the vault must be the recorded
    /// one.
    pub fn try_from(data: &[u8], accounts: Vec<Account>, rent_min_mint: u64) -> (r: Result<
        TokLgcPay,
        MyError,
    >)
        ensures
            match r {
                Ok(t) => {
                    &&& spec_tok_pay_try_err(data@, accounts@, rent_min_mint) is None
                    &&& t.wf()
                    &&& t.user == accounts@[0]
                    &&& t.from_ata == accounts@[1]
                    &&& t.to_ata == accounts@[2]
                    &&& t.vault == accounts@[3]
                    &&& t.mint == accounts@[4]
                    &&& t.config_pda == accounts@[5]
                    &&& t.token_program == accounts@[6]
                    &&& t.system_program == accounts@[7]
                    &&& t.atoken_program == accounts@[8]
                    &&& t.decimals == data@[0]
                    &&& Ok::<u64, MyError>(t.amount) == spec_parse_u64(data@.subrange(1, 9))
                },
                Err(e) => spec_tok_pay_try_err(data@, accounts@, rent_min_mint) == Some(e),
            },
    {
        let mut v = accounts;
        if v.len() != 9 {
            return Err(MyError::NotEnoughAccountKeys);
        }
        let atoken_program = v.pop().unwrap();
        let system_program = v.pop().unwrap();
        let token_program = v.pop().unwrap();
        let config_pda = v.pop().unwrap();
        let mint = v.pop().unwrap();
        let vault = v.pop().unwrap();
        let to_ata = v.pop().unwrap();
        let from_ata = v.pop().unwrap();
        let user = v.pop().unwrap();
        check_signer(&user)?;
        executable(&token_program)?;
        check_sysprog(&system_program)?;
        crate::guards::check_atoken_gpvbd(&atoken_program)?;
        writable(&vault)?;
        writable(&from_ata)?;
        check_ata_keys(&from_ata, &user.key, &mint.key)?;
        crate::parse::check_data_len(data, 9)?;
        let decimals = data[0];
        let amount = read_u64_le(data, 1);
        if amount == 0 {
            return Err(MyError::ZeroAsInput);
        }
        ata_balc(&from_ata, amount)?;
        let config = Config2::load(&config_pda)?;
        if !config_allows(&config, &mint.key) {
            return Err(MyError::MintNotAccepted);
        }
        if !addr_eq(&vault.key, &config.vault) {
            return Err(MyError::VaultPDA);
        }
        if mint.lamports < rent_min_mint {
            return Err(MyError::NotRentExamptMint22);
        }
        check_decimals(&mint, decimals)?;
        check_mint0a(&mint, &token_program)?;
        Ok(TokLgcPay {
            user,
            from_ata,
            to_ata,
            vault,
            mint,
            config_pda,
            token_program,
            system_program,
            atoken_program,
            decimals,
            amount,
        })
    }

    /// Ensure the vault's receiving token account and move the amount from
    /// the user into it.
    pub fn process(&mut self, rent_min_tokacct: u64) -> (r: Result<bool, MyError>)
        requires
            old(self).wf(),
        ensures
            match r {
                Ok(created) => {
                    &&& created == (old(self).to_ata.data@.len() == 0)
                    &&& spec_ta_amount(final(self).from_ata.data@) == spec_ta_amount(
                        old(self).from_ata.data@,
                    ) - old(self).amount
                    &&& spec_ta_amount(final(self).to_ata.data@) == spec_ensure_ata_amount(
                        old(self).to_ata,
                    ) + old(self).amount
                    &&& spec_ta_mint(final(self).to_ata.data@) == old(self).mint.key@
                    &&& spec_ta_owner(final(self).to_ata.data@) == old(self).vault.key@
                    &&& final(self).user.lamports == old(self).user.lamports - (
                    if created {
                        rent_min_tokacct as int
                    } else {
                        0int
                    })
                    &&& final(self).vault == old(self).vault
                    &&& final(self).mint == old(self).mint
                    &&& final(self).amount == old(self).amount
                },
                Err(e) => *final(self) == *old(self) && spec_tok_move_err(
                    old(self).to_ata,
                    old(self).vault.key@,
                    old(self).mint.key@,
                    old(self).from_ata.data@,
                    old(self).amount,
                    old(self).user.lamports,
                    rent_min_tokacct,
                ) == Some(e),
            },
    {
        let creating = self.to_ata.data.len() == 0;
        if !creating {
            check_ata_keys(&self.to_ata, &self.vault.key, &self.mint.key)?;
        }
        if !self.to_ata.is_writable {
            return Err(MyError::NotWritable);
        }
        if !creating && self.to_ata.lamports < rent_min_tokacct {
            return Err(MyError::NotRentExamptTokAcct22);
        }
        let from_bal = ta_amount(&self.from_ata.data);
        if from_bal < self.amount {
            return Err(MyError::MathUnderflow);
        }
        let to_bal = if creating {
            0u64
        } else {
            ta_amount(&self.to_ata.data)
        };
        if to_bal > u64::MAX - self.amount {
            return Err(MyError::ArithmeticOverflow);
        }
        if creating && self.user.lamports < rent_min_tokacct {
            return Err(MyError::InsufficientFunds);
        }
        let vault_key = self.vault.key;
        let mint_key = self.mint.key;
        let created = match ensure_ata(&mut self.to_ata, &vault_key, &mint_key, rent_min_tokacct)
            {
            Ok(c) => c,
            Err(e) => { return Err(e) },
        };
        if created {
            self.user.lamports = self.user.lamports - rent_min_tokacct;
        }
        ta_set_amount(&mut self.from_ata.data, from_bal - self.amount);
        ta_set_amount(&mut self.to_ata.data, to_bal + self.amount);
        Ok(created)
    }
}

/// Users redeem tokens of an allow-listed asset out of the owner's vault
/// account, signed with the vault's derived authority.
pub struct TokLgcRedeem {
    pub user: Account,
    pub from_ata: Account,
    pub to_ata: Account,
    pub vault: Account,
    pub prog_owner: [u8; 32],
    pub mint: Account,
    pub token_program: Account,
    pub system_program: Account,
    pub atoken_program: Account,
    pub vault_bump: u8,
    pub decimals: u8,
    pub amount: u64,
}

/// The first failing check of the redeem's validation, in order.
pub open spec fn spec_tok_redeem_try_err(
    data: Seq<u8>,
    a: Seq<Account>,
    rent_min_mint: u64,
) -> Option<MyError> {
    if a.len() != 10 {
        Some(MyError::NotEnoughAccountKeys)
    } else {
        let user = a[0];
        let from_ata = a[1];
        let vault = a[3];
        let config_pda = a[4];
        let mint = a[5];
        let token_program = a[6];
        let system_program = a[7];
        if !user.is_signer {
            Some(MyError::NotSigner)
        } else if !token_program.executable {
            Some(MyError::NotExecutable)
        } else if system_program.key@ != crate::addr::SYSTEM_PROGRAM_ID@ {
            Some(MyError::SystemProgram)
        } else if !from_ata.is_writable {
            Some(MyError::NotWritable)
        } else if spec_check_ata(from_ata, vault.key@, mint.key@) is Err {
            guard_err(spec_check_ata(from_ata, vault.key@, mint.key@))
        } else if data.len() != 9 {
            Some(MyError::InputDataLen)
        } else if spec_parse_u64(data.subrange(1, 9)) is Err {
            res_err(spec_parse_u64(data.subrange(1, 9)))
        } else if spec_ata_balc(from_ata, spec_parse_u64(data.subrange(1, 9))->Ok_0) is Err {
            guard_err(spec_ata_balc(from_ata, spec_parse_u64(data.subrange(1, 9))->Ok_0))
        } else if Config2::spec_load(config_pda) is Err {
            match Config2::spec_load(config_pda) {
                Err(e) => Some(e),
                Ok(_) => None,
            }
        } else if !spec_config_allows(Config2::spec_load(config_pda)->Ok_0, mint.key@) {
            Some(MyError::MintNotAccepted)
        } else if vault.key@ != Config2::spec_load(config_pda)->Ok_0.vault {
            Some(MyError::VaultPDA)
        } else if mint.lamports < rent_min_mint {
            Some(MyError::NotRentExamptMint22)
        } else if spec_check_decimals(mint, data[0]) is Err {
            guard_err(spec_check_decimals(mint, data[0]))
        } else if spec_check_mint0a(mint, token_program) is Err {
            guard_err(spec_check_mint0a(mint, token_program))
        } else {
            None
        }
    }
}

impl TokLgcRedeem {
    /// The shape every validated redeem carries into `process`.
    pub open spec fn wf(self) -> bool {
        &&& self.from_ata.data@.len() == TOKEN_ACCOUNT_LEN
        &&& self.amount > 0
    }

    /// Match the exact account arity and run the guard sequence; the vault's
    /// recorded owner and collision byte come out of the config record for
    /// the derived-authority signature.
    pub fn try_from(data: &[u8], accounts: Vec<Account>, rent_min_mint: u64) -> (r: Result<
        TokLgcRedeem,
        MyError,
    >)
        ensures
            match r {
                Ok(t) => {
                    &&& spec_tok_redeem_try_err(data@, accounts@, rent_min_mint) is None
                    &&& t.wf()
                    &&& t.user == accounts@[0]
                    &&& t.from_ata == accounts@[1]
                    &&& t.to_ata == accounts@[2]
                    &&& t.vault == accounts@[3]
                    &&& t.mint == accounts@[5]
                    &&& t.token_program == accounts@[6]
                    &&& t.system_program == accounts@[7]
                    &&& t.atoken_program == accounts@[8]
                    &&& t.prog_owner@ == Config2::spec_load(accounts@[4])->Ok_0.prog_owner
                    &&& t.vault_bump == Config2::spec_load(accounts@[4])->Ok_0.vault_bump
                    &&& t.decimals == data@[0]
                    &&& Ok::<u64, MyError>(t.amount) == spec_parse_u64(data@.subrange(1, 9))
                },
                Err(e) => spec_tok_redeem_try_err(data@, accounts@, rent_min_mint) == Some(e),
            },
    {
        let mut v = accounts;
        if v.len() != 10 {
            return Err(MyError::NotEnoughAccountKeys);
        }
        let _sysvar_rent = v.pop().unwrap();
        let atoken_program = v.pop().unwrap();
        let system_program = v.pop().unwrap();
        let token_program = v.pop().unwrap();
        let mint = v.pop().unwrap();
        let config_pda = v.pop().unwrap();
        let vault = v.pop().unwrap();
        let to_ata = v.pop().unwrap();
        let from_ata = v.pop().unwrap();
        let user = v.pop().unwrap();
        check_signer(&user)?;
        executable(&token_program)?;
        check_sysprog(&system_program)?;
        writable(&from_ata)?;
        check_ata_keys(&from_ata, &vault.key, &mint.key)?;
        crate::parse::check_data_len(data, 9)?;
        let decimals = data[0];
        let amount = read_u64_le(data, 1);
        if amount == 0 {
            return Err(MyError::ZeroAsInput);
        }
        ata_balc(&from_ata, amount)?;
        let config = Config2::load(&config_pda)?;
        if !config_allows(&config, &mint.key) {
            return Err(MyError::MintNotAccepted);
        }
        if !addr_eq(&vault.key, &config.vault) {
            return Err(MyError::VaultPDA);
        }
        if mint.lamports < rent_min_mint {
            return Err(MyError::NotRentExamptMint22);
        }
        check_decimals(&mint, decimals)?;
        check_mint0a(&mint, &token_program)?;
        Ok(TokLgcRedeem {
            user,
            from_ata,
            to_ata,
            vault,
            prog_owner: config.prog_owner,
            mint,
            token_program,
            system_program,
            atoken_program,
            vault_bump: config.vault_bump,
            decimals,
            amount,
        })
    }

    /// Ensure the caller's receiving token account and move the amount out of
    /// the vault-held account.
    pub fn process(&mut self, rent_min_tokacct: u64) -> (r: Result<bool, MyError>)
        requires
            old(self).wf(),
        ensures
            match r {
                Ok(created) => {
                    &&& created == (old(self).to_ata.data@.len() == 0)
                    &&& spec_ta_amount(final(self).from_ata.data@) == spec_ta_amount(
                        old(self).from_ata.data@,
                    ) - old(self).amount
                    &&& spec_ta_amount(final(self).to_ata.data@) == spec_ensure_ata_amount(
                        old(self).to_ata,
                    ) + old(self).amount
                    &&& spec_ta_mint(final(self).to_ata.data@) == old(self).mint.key@
                    &&& spec_ta_owner(final(self).to_ata.data@) == old(self).user.key@
                    &&& final(self).user.lamports == old(self).user.lamports - (
                    if created {
                        rent_min_tokacct as int
                    } else {
                        0int
                    })
                    &&& final(self).vault == old(self).vault
                    &&& final(self).mint == old(self).mint
                    &&& final(self).amount == old(self).amount
                },
                Err(e) => *final(self) == *old(self) && spec_tok_move_err(
                    old(self).to_ata,
                    old(self).user.key@,
                    old(self).mint.key@,
                    old(self).from_ata.data@,
                    old(self).amount,
                    old(self).user.lamports,
                    rent_min_tokacct,
                ) == Some(e),
            },
    {
        let creating = self.to_ata.data.len() == 0;
        if !creating {
            check_ata_keys(&self.to_ata, &self.user.key, &self.mint.key)?;
        }
        if !self.to_ata.is_writable {
            return Err(MyError::NotWritable);
        }
        if !creating && self.to_ata.lamports < rent_min_tokacct {
            return Err(MyError::NotRentExamptTokAcct22);
        }
        let from_bal = ta_amount(&self.from_ata.data);
        if from_bal < self.amount {
            return Err(MyError::MathUnderflow);
        }
        let to_bal = if creating {
            0u64
        } else {
            ta_amount(&self.to_ata.data)
        };
        if to_bal > u64::MAX - self.amount {
            return Err(MyError::ArithmeticOverflow);
        }
        if creating && self.user.lamports < rent_min_tokacct {
            return Err(MyError::InsufficientFunds);
        }
        let user_key = self.user.key;
        let mint_key = self.mint.key;
        let created = match ensure_ata(&mut self.to_ata, &user_key, &mint_key, rent_min_tokacct) {
            Ok(c) => c,
            Err(e) => { return Err(e) },
        };
        if created {
            self.user.lamports = self.user.lamports - rent_min_tokacct;
        }
        ta_set_amount(&mut self.from_ata.data, from_bal - self.amount);
        ta_set_amount(&mut self.to_ata.data, to_bal + self.amount);
        Ok(created)
    }
}

} // verus!
