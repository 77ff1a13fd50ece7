//! The escrow atomic-swap state machine: Make locks asset X and records the
//! wanted asset Y, Take delivers Y to the vault and X to the taker, Cancel
//! returns X and tears the record down.
//!
//! Handlers work on account models.  Each handler completes every check
//! before its first mutation, so on any failure the models are exactly as
//! they were handed in — mirroring the all-or-nothing transaction the host
//! guarantees.

use crate::account::{
    spec_ta_amount, spec_ta_mint, spec_ta_owner, ta_amount, token_account_bytes, Account,
    TOKEN_ACCOUNT_LEN,
};
use crate::addr::{
    addr_eq, derive_escrow_address, pda_derivation, tag_owner_id_seeds, ATA_PROGRAM_ID,
    ESCROW_SEED, SYSTEM_PROGRAM_ID, TOKEN_PROGRAM_ID,
};
use crate::errors::MyError;
use crate::guards::{
    ata_balc, check_ata_keys, check_atoken_gpvbd, check_decimals, check_escrow_mints,
    check_mint0a, check_signer, check_sysprog, executable, spec_ata_balc, spec_check_ata,
    spec_check_decimals, spec_check_mint0a, writable,
};
use crate::parse::{check_data_len, read_u64_le, spec_parse_u64};
use crate::state::{spec_escrow_of_bytes, Escrow, EscrowV, ESCROW_LEN};
use crate::PROGRAM_ID;
use vstd::bytes::spec_u64_from_le_bytes;
use vstd::prelude::*;

verus! {

/// The error of a failed guard, or nothing.
pub open spec fn guard_err(r: Result<(), MyError>) -> Option<MyError> {
    match r {
        Ok(_) => None,
        Err(e) => Some(e),
    }
}

/// The first failure among two ordered checks.
pub open spec fn first_err(a: Option<MyError>, b: Option<MyError>) -> Option<MyError> {
    if a is Some {
        a
    } else {
        b
    }
}

/// What the idempotent ensure step answers before mutating anything: an empty
/// slot can always be initialized; a non-empty one must validate as the
/// expected token account.
pub open spec fn spec_ensure_ata_err(ata: Account, wallet: Seq<u8>, mint: Seq<u8>) -> Option<
    MyError,
> {
    if ata.data@.len() == 0 {
        None
    } else {
        guard_err(spec_check_ata(ata, wallet, mint))
    }
}

/// The token balance the slot holds once the ensure step is done.
pub open spec fn spec_ensure_ata_amount(ata: Account) -> u64 {
    if ata.data@.len() == 0 {
        0u64
    } else {
        spec_ta_amount(ata.data@)
    }
}

/// The native balance the slot holds once the ensure step is done.
pub open spec fn spec_ensure_ata_lamports(ata: Account, rent_min: u64) -> u64 {
    if ata.data@.len() == 0 {
        rent_min
    } else {
        ata.lamports
    }
}

/// Ensure a token-holding account for `(wallet, mint)` exists in this slot:
/// if the slot is empty, initialize it (funded to the minimum-retention
/// balance, holding zero tokens); otherwise validate the existing account.
/// Answers whether a fresh account was created.
pub fn ensure_ata(ata: &mut Account, wallet: &[u8; 32], mint: &[u8; 32], rent_min: u64) -> (r:
    Result<bool, MyError>)
    ensures
        match r {
            Ok(created) => {
                &&& spec_ensure_ata_err(*old(ata), wallet@, mint@) is None
                &&& created == (old(ata).data@.len() == 0)
                &&& !created ==> *final(ata) == *old(ata)
                &&& final(ata).data@.len() == TOKEN_ACCOUNT_LEN
                &&& spec_ta_mint(final(ata).data@) == mint@
                &&& spec_ta_owner(final(ata).data@) == wallet@
                &&& spec_ta_amount(final(ata).data@) == spec_ensure_ata_amount(*old(ata))
                &&& final(ata).lamports == spec_ensure_ata_lamports(*old(ata), rent_min)
                &&& created ==> final(ata).owner@ == TOKEN_PROGRAM_ID@
                &&& final(ata).key == old(ata).key
                &&& final(ata).is_signer == old(ata).is_signer
                &&& final(ata).is_writable == old(ata).is_writable
                &&& final(ata).executable == old(ata).executable
            },
            Err(e) => *final(ata) == *old(ata) && spec_ensure_ata_err(*old(ata), wallet@, mint@)
                == Some(e),
        },
{
    if ata.data.len() == 0 {
        ata.data = token_account_bytes(mint, wallet, 0);
        ata.owner = TOKEN_PROGRAM_ID;
        ata.lamports = rent_min;
        Ok(true)
    } else {
        check_ata_keys(ata, wallet, mint)?;
        Ok(false)
    }
}

/// Running the ensure step on a slot that already holds the expected token
/// account falls through to validation: it asks for no second creation and
/// succeeds without touching the slot.  Together with `ensure_ata`'s
/// contract, a second ensure after a successful one returns `Ok(false)` and
/// leaves the slot exactly as the first call left it.
pub proof fn lemma_ensure_ata_idempotent(ata: Account, wallet: Seq<u8>, mint: Seq<u8>)
    requires
        ata.data@.len() == TOKEN_ACCOUNT_LEN,
        ata.owner@ == TOKEN_PROGRAM_ID@,
        spec_ta_owner(ata.data@) == wallet,
        spec_ta_mint(ata.data@) == mint,
    ensures
        spec_ensure_ata_err(ata, wallet, mint) is None,
        ata.data@.len() != 0,
{
}

/// The swap terms a Make payload carries.
pub open spec fn spec_payload_decimal_x(data: Seq<u8>) -> u8 {
    data[0]
}

pub open spec fn spec_payload_amount_x(data: Seq<u8>) -> Result<u64, MyError> {
    spec_parse_u64(data.subrange(1, 9))
}

pub open spec fn spec_payload_decimal_y(data: Seq<u8>) -> u8 {
    data[9]
}

pub open spec fn spec_payload_amount_y(data: Seq<u8>) -> Result<u64, MyError> {
    spec_parse_u64(data.subrange(10, 18))
}

pub open spec fn spec_payload_id(data: Seq<u8>) -> Result<u64, MyError> {
    spec_parse_u64(data.subrange(18, 26))
}

/// Parse the 26-byte swap payload: decimals, the two nonzero amounts, and
/// the swap id.
fn parse_swap_payload(data: &[u8]) -> (r: Result<(u8, u64, u8, u64, u64), MyError>)
    requires
        data@.len() == 26,
    ensures
        match r {
            Ok(p) => {
                &&& p.0 == spec_payload_decimal_x(data@)
                &&& Ok::<u64, MyError>(p.1) == spec_payload_amount_x(data@)
                &&& p.2 == spec_payload_decimal_y(data@)
                &&& Ok::<u64, MyError>(p.3) == spec_payload_amount_y(data@)
                &&& Ok::<u64, MyError>(p.4) == spec_payload_id(data@)
            },
            Err(e) => {
                Some(e) == first_err(
                    res_err(spec_payload_amount_x(data@)),
                    first_err(
                        res_err(spec_payload_amount_y(data@)),
                        res_err(spec_payload_id(data@)),
                    ),
                )
            },
        },
{
    let decimal_x = data[0];
    let amount_x = read_u64_le(data, 1);
    if amount_x == 0 {
        return Err(MyError::ZeroAsInput);
    }
    let decimal_y = data[9];
    let amount_y = read_u64_le(data, 10);
    if amount_y == 0 {
        return Err(MyError::ZeroAsInput);
    }
    let id = read_u64_le(data, 18);
    if id == 0 {
        return Err(MyError::ZeroAsInput);
    }
    Ok((decimal_x, amount_x, decimal_y, amount_y, id))
}

/// The error of a failed value parse, or nothing.
pub open spec fn res_err<T>(r: Result<T, MyError>) -> Option<MyError> {
    match r {
        Ok(_) => None,
        Err(e) => Some(e),
    }
}


/// The Make instruction, parsed and validated: lock `amount_x` of asset X
/// and record the wanted `amount_y` of asset Y under a caller-chosen id.
pub struct EscrowTokMake {
    pub maker: Account,
    pub maker_ata_x: Account,
    pub escrow_ata_x: Account,
    pub mint_x: Account,
    pub mint_y: Account,
    pub escrow_pda: Account,
    pub token_program: Account,
    pub system_program: Account,
    pub atoken_program: Account,
    pub amount_x: u64,
    pub amount_y: u64,
    pub id: u64,
    pub decimal_x: u8,
    pub decimal_y: u8,
}

/// The first failing check of Make's account and payload validation, in the
/// order the checks run; `None` when every check passes.
pub open spec fn spec_make_try_err(data: Seq<u8>, a: Seq<Account>) -> Option<MyError> {
    if a.len() != 9 {
        Some(MyError::NotEnoughAccountKeys)
    } else {
        let maker = a[0];
        let maker_ata_x = a[1];
        let escrow_ata_x = a[2];
        let mint_x = a[3];
        let mint_y = a[4];
        let escrow_pda = a[5];
        let token_program = a[6];
        let system_program = a[7];
        let atoken_program = a[8];
        if !maker.is_signer {
            Some(MyError::NotSigner)
        } else if !token_program.executable {
            Some(MyError::NotExecutable)
        } else if system_program.key@ != SYSTEM_PROGRAM_ID@ {
            Some(MyError::SystemProgram)
        } else if atoken_program.key@ != ATA_PROGRAM_ID@ {
            Some(MyError::AtaCheckFailed)
        } else if !maker_ata_x.is_writable {
            Some(MyError::NotWritable)
        } else if spec_check_ata(maker_ata_x, maker.key@, mint_x.key@) is Err {
            guard_err(spec_check_ata(maker_ata_x, maker.key@, mint_x.key@))
        } else if !escrow_ata_x.is_writable {
            Some(MyError::NotWritable)
        } else if !escrow_pda.is_writable {
            Some(MyError::NotWritable)
        } else if data.len() != 26 {
            Some(MyError::InputDataLen)
        } else if spec_payload_amount_x(data) is Err {
            res_err(spec_payload_amount_x(data))
        } else if spec_payload_amount_y(data) is Err {
            res_err(spec_payload_amount_y(data))
        } else if spec_payload_id(data) is Err {
            res_err(spec_payload_id(data))
        } else if mint_x.key@ == mint_y.key@ {
            Some(MyError::EscrowSameMint)
        } else if spec_check_decimals(mint_x, spec_payload_decimal_x(data)) is Err {
            guard_err(spec_check_decimals(mint_x, spec_payload_decimal_x(data)))
        } else if spec_check_decimals(mint_y, spec_payload_decimal_y(data)) is Err {
            guard_err(spec_check_decimals(mint_y, spec_payload_decimal_y(data)))
        } else if spec_check_mint0a(mint_x, token_program) is Err {
            guard_err(spec_check_mint0a(mint_x, token_program))
        } else if spec_check_mint0a(mint_y, token_program) is Err {
            guard_err(spec_check_mint0a(mint_y, token_program))
        } else if spec_ata_balc(maker_ata_x, spec_payload_amount_x(data)->Ok_0) is Err {
            guard_err(spec_ata_balc(maker_ata_x, spec_payload_amount_x(data)->Ok_0))
        } else {
            None
        }
    }
}

impl EscrowTokMake {
    /// The shape every validated Make carries into `process`.
    pub open spec fn wf(self) -> bool {
        &&& self.maker_ata_x.data@.len() == TOKEN_ACCOUNT_LEN
        &&& self.amount_x > 0
        &&& self.amount_y > 0
        &&& self.id > 0
        &&& self.mint_x.key@ != self.mint_y.key@
    }

    /// Match the exact account arity, run every guard, and parse the swap
    /// payload; nothing is mutated.
    pub fn try_from(data: &[u8], accounts: Vec<Account>) -> (r: Result<EscrowTokMake, MyError>)
        ensures
            match r {
                Ok(t) => {
                    &&& spec_make_try_err(data@, accounts@) is None
                    &&& t.wf()
                    &&& t.maker == accounts@[0]
                    &&& t.maker_ata_x == accounts@[1]
                    &&& t.escrow_ata_x == accounts@[2]
                    &&& t.mint_x == accounts@[3]
                    &&& t.mint_y == accounts@[4]
                    &&& t.escrow_pda == accounts@[5]
                    &&& t.token_program == accounts@[6]
                    &&& t.system_program == accounts@[7]
                    &&& t.atoken_program == accounts@[8]
                    &&& t.decimal_x == spec_payload_decimal_x(data@)
                    &&& Ok::<u64, MyError>(t.amount_x) == spec_payload_amount_x(data@)
                    &&& t.decimal_y == spec_payload_decimal_y(data@)
                    &&& Ok::<u64, MyError>(t.amount_y) == spec_payload_amount_y(data@)
                    &&& Ok::<u64, MyError>(t.id) == spec_payload_id(data@)
                },
                Err(e) => spec_make_try_err(data@, accounts@) == Some(e),
            },
    {
        let mut v = accounts;
        if v.len() != 9 {
            return Err(MyError::NotEnoughAccountKeys);
        }
        let atoken_program = v.pop().unwrap();
        let system_program = v.pop().unwrap();
        let token_program = v.pop().unwrap();
        let escrow_pda = v.pop().unwrap();
        let mint_y = v.pop().unwrap();
        let mint_x = v.pop().unwrap();
        let escrow_ata_x = v.pop().unwrap();
        let maker_ata_x = v.pop().unwrap();
        let maker = v.pop().unwrap();
        check_signer(&maker)?;
        executable(&token_program)?;
        check_sysprog(&system_program)?;
        check_atoken_gpvbd(&atoken_program)?;
        writable(&maker_ata_x)?;
        check_ata_keys(&maker_ata_x, &maker.key, &mint_x.key)?;
        writable(&escrow_ata_x)?;
        writable(&escrow_pda)?;
        check_data_len(data, 26)?;
        let (decimal_x, amount_x, decimal_y, amount_y, id) = parse_swap_payload(data)?;
        check_escrow_mints(&mint_x, &mint_y)?;
        check_decimals(&mint_x, decimal_x)?;
        check_decimals(&mint_y, decimal_y)?;
        check_mint0a(&mint_x, &token_program)?;
        check_mint0a(&mint_y, &token_program)?;
        ata_balc(&maker_ata_x, amount_x)?;
        Ok(EscrowTokMake {
            maker,
            maker_ata_x,
            escrow_ata_x,
            mint_x,
            mint_y,
            escrow_pda,
            token_program,
            system_program,
            atoken_program,
            amount_x,
            amount_y,
            id,
            decimal_x,
            decimal_y,
        })
    }
}

/// What a successful Make created.
#[derive(Clone, Copy, Debug, PartialEq, Eq, Structural)]
pub struct MakePlan {
    /// Whether the vault-side token account for asset X had to be created.
    pub created_escrow_ata_x: bool,
    /// The collision-avoidance byte of the escrow address.
    pub escrow_bump: u8,
}

/// The first failing check of Make's state transition, in order; `None` when
/// Make succeeds.  The minimum-retention balances for the escrow record and a
/// token account come from the rent oracle.
pub open spec fn spec_make_process_err(
    s: EscrowTokMake,
    rent_min_escrow: u64,
    rent_min_tokacct: u64,
) -> Option<MyError> {
    match pda_derivation(tag_owner_id_seeds(ESCROW_SEED@, s.maker.key@, s.id), PROGRAM_ID@) {
        None => Some(MyError::InvalidSeeds),
        Some(p) => {
            if s.escrow_pda.key@ != p.0 {
                Some(MyError::EscrowPDA)
            } else if s.escrow_pda.lamports != 0 || s.escrow_pda.data@.len() != 0 {
                Some(MyError::EscrowAlreadyFunded)
            } else if spec_ensure_ata_err(s.escrow_ata_x, s.escrow_pda.key@, s.mint_x.key@)
                is Some {
                spec_ensure_ata_err(s.escrow_ata_x, s.escrow_pda.key@, s.mint_x.key@)
            } else if spec_ensure_ata_lamports(s.escrow_ata_x, rent_min_tokacct)
                < rent_min_tokacct {
                Some(MyError::NotRentExamptTokAcct22)
            } else if spec_ta_amount(s.maker_ata_x.data@) < s.amount_x {
                Some(MyError::MathUnderflow)
            } else if spec_ensure_ata_amount(s.escrow_ata_x) + s.amount_x > u64::MAX {
                Some(MyError::ArithmeticOverflow)
            } else if s.maker.lamports < rent_min_escrow {
                Some(MyError::InsufficientFunds)
            } else if s.escrow_ata_x.data@.len() == 0 && s.maker.lamports - rent_min_escrow
                < rent_min_tokacct {
                Some(MyError::InsufficientFunds)
            } else {
                None
            }
        },
    }
}

impl EscrowTokMake {
    /// Lock the offer: re-derive and match the escrow address, refuse a
    /// funded slot (duplicate offer), ensure the vault-side token account for
    /// asset X, move `amount_x` from the maker into it, and persist the
    /// record — all checks precede the first mutation, so a failing Make
    /// changes nothing.
    ///
    /// On success: the maker's X balance decreases by exactly `amount_x`, the
    /// vault's X balance increases by exactly `amount_x`, and the record
    /// equals (maker, X, Y, amount_x, amount_y, id).
    pub fn process(&mut self, rent_min_escrow: u64, rent_min_tokacct: u64) -> (r: Result<
        MakePlan,
        MyError,
    >)
        requires
            old(self).wf(),
        ensures
            match r {
                Ok(plan) => {
                    let d = pda_derivation(
                        tag_owner_id_seeds(ESCROW_SEED@, old(self).maker.key@, old(self).id),
                        PROGRAM_ID@,
                    );
                    let created = old(self).escrow_ata_x.data@.len() == 0;
                    &&& spec_make_process_err(*old(self), rent_min_escrow, rent_min_tokacct)
                        is None
                    &&& d matches Some(p) && plan.escrow_bump == p.1
                    &&& plan.created_escrow_ata_x == created
                    &&& final(self).maker_ata_x.data@.len() == TOKEN_ACCOUNT_LEN
                    &&& spec_ta_amount(final(self).maker_ata_x.data@) == spec_ta_amount(
                        old(self).maker_ata_x.data@,
                    ) - old(self).amount_x
                    &&& spec_ta_mint(final(self).maker_ata_x.data@) == spec_ta_mint(
                        old(self).maker_ata_x.data@,
                    )
                    &&& spec_ta_owner(final(self).maker_ata_x.data@) == spec_ta_owner(
                        old(self).maker_ata_x.data@,
                    )
                    &&& final(self).escrow_ata_x.data@.len() == TOKEN_ACCOUNT_LEN
                    &&& spec_ta_amount(final(self).escrow_ata_x.data@)
                        == spec_ensure_ata_amount(old(self).escrow_ata_x) + old(self).amount_x
                    &&& spec_ta_mint(final(self).escrow_ata_x.data@) == old(self).mint_x.key@
                    &&& spec_ta_owner(final(self).escrow_ata_x.data@) == old(
                        self,
                    ).escrow_pda.key@
                    &&& final(self).escrow_pda.data@.len() == ESCROW_LEN
                    &&& spec_escrow_of_bytes(final(self).escrow_pda.data@) == (EscrowV {
                        maker: old(self).maker.key@,
                        mint_x: old(self).mint_x.key@,
                        mint_y: old(self).mint_y.key@,
                        amount_x: old(self).amount_x,
                        amount_y: old(self).amount_y,
                        id: old(self).id,
                        decimal_x: old(self).decimal_x,
                        decimal_y: old(self).decimal_y,
                        bump: plan.escrow_bump,
                    })
                    &&& final(self).escrow_pda.owner@ == PROGRAM_ID@
                    &&& final(self).escrow_pda.lamports == rent_min_escrow
                    &&& final(self).maker.lamports == old(self).maker.lamports - rent_min_escrow
                        - (if created { rent_min_tokacct as int } else { 0int })
                    &&& final(self).maker.key == old(self).maker.key
                    &&& final(self).mint_x == old(self).mint_x
                    &&& final(self).mint_y == old(self).mint_y
                    &&& final(self).token_program == old(self).token_program
                    &&& final(self).system_program == old(self).system_program
                    &&& final(self).atoken_program == old(self).atoken_program
                    &&& final(self).amount_x == old(self).amount_x
                    &&& final(self).amount_y == old(self).amount_y
                    &&& final(self).id == old(self).id
                    &&& final(self).wf()
                },
                Err(e) => *final(self) == *old(self) && spec_make_process_err(
                    *old(self),
                    rent_min_escrow,
                    rent_min_tokacct,
                ) == Some(e),
            },
    {
        let derived = derive_escrow_address(&self.maker.key, self.id)?;
        let escrow_addr = derived.0;
        let bump = derived.1;
        if !addr_eq(&self.escrow_pda.key, &escrow_addr) {
            return Err(MyError::EscrowPDA);
        }
        if self.escrow_pda.lamports != 0 || self.escrow_pda.data.len() != 0 {
            return Err(MyError::EscrowAlreadyFunded);
        }
        let creating = self.escrow_ata_x.data.len() == 0;
        if !creating {
            check_ata_keys(&self.escrow_ata_x, &self.escrow_pda.key, &self.mint_x.key)?;
            if self.escrow_ata_x.lamports < rent_min_tokacct {
                return Err(MyError::NotRentExamptTokAcct22);
            }
        }
        let maker_bal = ta_amount(&self.maker_ata_x.data);
        if maker_bal < self.amount_x {
            return Err(MyError::MathUnderflow);
        }
        let vault_bal = if creating {
            0u64
        } else {
            ta_amount(&self.escrow_ata_x.data)
        };
        if vault_bal > u64::MAX - self.amount_x {
            return Err(MyError::ArithmeticOverflow);
        }
        if self.maker.lamports < rent_min_escrow {
            return Err(MyError::InsufficientFunds);
        }
        if creating && self.maker.lamports - rent_min_escrow < rent_min_tokacct {
            return Err(MyError::InsufficientFunds);
        }
        // every check has passed: apply the whole transition
        let wallet_key = self.escrow_pda.key;
        let mint_x_key = self.mint_x.key;
        let created = match ensure_ata(
            &mut self.escrow_ata_x,
            &wallet_key,
            &mint_x_key,
            rent_min_tokacct,
        ) {
            Ok(c) => c,
            Err(e) => { return Err(e) },
        };
        crate::account::ta_set_amount(&mut self.maker_ata_x.data, maker_bal - self.amount_x);
        crate::account::ta_set_amount(&mut self.escrow_ata_x.data, vault_bal + self.amount_x);
        self.maker.lamports = self.maker.lamports - rent_min_escrow - (
        if created {
            rent_min_tokacct
        } else {
            0
        });
        self.escrow_pda.lamports = rent_min_escrow;
        self.escrow_pda.owner = PROGRAM_ID;
        let record = Escrow {
            maker: self.maker.key,
            mint_x: self.mint_x.key,
            mint_y: self.mint_y.key,
            amount_x: self.amount_x,
            amount_y: self.amount_y,
            id: self.id,
            decimal_x: self.decimal_x,
            decimal_y: self.decimal_y,
            bump,
        };
        self.escrow_pda.data = record.to_bytes();
        Ok(MakePlan { created_escrow_ata_x: created, escrow_bump: bump })
    }
}


/// The Take instruction, parsed and validated: deliver `amount_y` of asset Y
/// to the maker's vault and `amount_x` of asset X to the taker, atomically.
pub struct EscrowTokTake {
    pub taker: Account,
    pub taker_ata_x: Account,
    pub taker_ata_y: Account,
    pub escrow_ata_x: Account,
    pub escrow_ata_y: Account,
    pub mint_x: Account,
    pub mint_y: Account,
    pub escrow_pda: Account,
    pub config_pda: Account,
    pub token_program: Account,
    pub system_program: Account,
    pub atoken_program: Account,
    pub amount_x: u64,
    pub amount_y: u64,
    pub id: u64,
    pub decimal_x: u8,
    pub decimal_y: u8,
}

/// The first failing check of Take's account and payload validation, in the
/// order the checks run; `None` when every check passes.  `rent_min_mint` is
/// the rent oracle's minimum balance for a mint-sized account.
pub open spec fn spec_take_try_err(data: Seq<u8>, a: Seq<Account>, rent_min_mint: u64) -> Option<
    MyError,
> {
    if a.len() != 12 {
        Some(MyError::NotEnoughAccountKeys)
    } else {
        let taker = a[0];
        let taker_ata_x = a[1];
        let taker_ata_y = a[2];
        let escrow_ata_x = a[3];
        let escrow_ata_y = a[4];
        let mint_x = a[5];
        let mint_y = a[6];
        let escrow_pda = a[7];
        let config_pda = a[8];
        let token_program = a[9];
        let system_program = a[10];
        let atoken_program = a[11];
        if !taker.is_signer {
            Some(MyError::NotSigner)
        } else if !token_program.executable {
            Some(MyError::NotExecutable)
        } else if system_program.key@ != SYSTEM_PROGRAM_ID@ {
            Some(MyError::SystemProgram)
        } else if atoken_program.key@ != ATA_PROGRAM_ID@ {
            Some(MyError::AtaCheckFailed)
        } else if !taker_ata_y.is_writable {
            Some(MyError::NotWritable)
        } else if spec_check_ata(taker_ata_y, taker.key@, mint_y.key@) is Err {
            guard_err(spec_check_ata(taker_ata_y, taker.key@, mint_y.key@))
        } else if !escrow_ata_x.is_writable {
            Some(MyError::NotWritable)
        } else if spec_check_ata(escrow_ata_x, escrow_pda.key@, mint_x.key@) is Err {
            guard_err(spec_check_ata(escrow_ata_x, escrow_pda.key@, mint_x.key@))
        } else if !escrow_pda.is_writable {
            Some(MyError::NotWritable)
        } else if !config_pda.is_writable {
            Some(MyError::NotWritable)
        } else if escrow_pda.data@.len() == 0 {
            Some(MyError::EscrowDataEmpty)
        } else if data.len() != 26 {
            Some(MyError::InputDataLen)
        } else if spec_payload_amount_x(data) is Err {
            res_err(spec_payload_amount_x(data))
        } else if spec_payload_amount_y(data) is Err {
            res_err(spec_payload_amount_y(data))
        } else if spec_payload_id(data) is Err {
            res_err(spec_payload_id(data))
        } else if spec_ta_amount(escrow_ata_x.data@) < spec_payload_amount_x(data)->Ok_0 {
            Some(MyError::EscrowInsuffTokenX)
        } else if spec_ta_amount(taker_ata_y.data@) < spec_payload_amount_y(data)->Ok_0 {
            Some(MyError::TakerInsuffTokenY)
        } else if mint_x.key@ == mint_y.key@ {
            Some(MyError::EscrowSameMint)
        } else if mint_x.lamports < rent_min_mint {
            Some(MyError::NotRentExamptMint22)
        } else if mint_y.lamports < rent_min_mint {
            Some(MyError::NotRentExamptMint22)
        } else if spec_check_decimals(mint_x, spec_payload_decimal_x(data)) is Err {
            guard_err(spec_check_decimals(mint_x, spec_payload_decimal_x(data)))
        } else if spec_check_decimals(mint_y, spec_payload_decimal_y(data)) is Err {
            guard_err(spec_check_decimals(mint_y, spec_payload_decimal_y(data)))
        } else if spec_check_mint0a(mint_x, token_program) is Err {
            guard_err(spec_check_mint0a(mint_x, token_program))
        } else if spec_check_mint0a(mint_y, token_program) is Err {
            guard_err(spec_check_mint0a(mint_y, token_program))
        } else {
            None
        }
    }
}

impl EscrowTokTake {
    /// The shape every validated Take carries into `process`.
    pub open spec fn wf(self) -> bool {
        &&& self.taker_ata_y.data@.len() == TOKEN_ACCOUNT_LEN
        &&& self.escrow_ata_x.data@.len() == TOKEN_ACCOUNT_LEN
        &&& self.amount_x > 0
        &&& self.amount_y > 0
        &&& self.id > 0
    }

    /// Match the exact account arity, run every guard, and parse the swap
    /// payload; nothing is mutated.
    pub fn try_from(data: &[u8], accounts: Vec<Account>, rent_min_mint: u64) -> (r: Result<
        EscrowTokTake,
        MyError,
    >)
        ensures
            match r {
                Ok(t) => {
                    &&& spec_take_try_err(data@, accounts@, rent_min_mint) is None
                    &&& t.wf()
                    &&& t.taker == accounts@[0]
                    &&& t.taker_ata_x == accounts@[1]
                    &&& t.taker_ata_y == accounts@[2]
                    &&& t.escrow_ata_x == accounts@[3]
                    &&& t.escrow_ata_y == accounts@[4]
                    &&& t.mint_x == accounts@[5]
                    &&& t.mint_y == accounts@[6]
                    &&& t.escrow_pda == accounts@[7]
                    &&& t.config_pda == accounts@[8]
                    &&& t.token_program == accounts@[9]
                    &&& t.system_program == accounts@[10]
                    &&& t.atoken_program == accounts@[11]
                    &&& t.decimal_x == spec_payload_decimal_x(data@)
                    &&& Ok::<u64, MyError>(t.amount_x) == spec_payload_amount_x(data@)
                    &&& t.decimal_y == spec_payload_decimal_y(data@)
                    &&& Ok::<u64, MyError>(t.amount_y) == spec_payload_amount_y(data@)
                    &&& Ok::<u64, MyError>(t.id) == spec_payload_id(data@)
                },
                Err(e) => spec_take_try_err(data@, accounts@, rent_min_mint) == Some(e),
            },
    {
        let mut v = accounts;
        if v.len() != 12 {
            return Err(MyError::NotEnoughAccountKeys);
        }
        let atoken_program = v.pop().unwrap();
        let system_program = v.pop().unwrap();
        let token_program = v.pop().unwrap();
        let config_pda = v.pop().unwrap();
        let escrow_pda = v.pop().unwrap();
        let mint_y = v.pop().unwrap();
        let mint_x = v.pop().unwrap();
        let escrow_ata_y = v.pop().unwrap();
        let escrow_ata_x = v.pop().unwrap();
        let taker_ata_y = v.pop().unwrap();
        let taker_ata_x = v.pop().unwrap();
        let taker = v.pop().unwrap();
        check_signer(&taker)?;
        executable(&token_program)?;
        check_sysprog(&system_program)?;
        check_atoken_gpvbd(&atoken_program)?;
        writable(&taker_ata_y)?;
        check_ata_keys(&taker_ata_y, &taker.key, &mint_y.key)?;
        writable(&escrow_ata_x)?;
        check_ata_keys(&escrow_ata_x, &escrow_pda.key, &mint_x.key)?;
        writable(&escrow_pda)?;
        writable(&config_pda)?;
        if escrow_pda.data.len() == 0 {
            return Err(MyError::EscrowDataEmpty);
        }
        check_data_len(data, 26)?;
        let (decimal_x, amount_x, decimal_y, amount_y, id) = parse_swap_payload(data)?;
        if ta_amount(&escrow_ata_x.data) < amount_x {
            return Err(MyError::EscrowInsuffTokenX);
        }
        if ta_amount(&taker_ata_y.data) < amount_y {
            return Err(MyError::TakerInsuffTokenY);
        }
        check_escrow_mints(&mint_x, &mint_y)?;
        crate::guards::rent_exempt_mint(&mint_x, rent_min_mint)?;
        crate::guards::rent_exempt_mint(&mint_y, rent_min_mint)?;
        check_decimals(&mint_x, decimal_x)?;
        check_decimals(&mint_y, decimal_y)?;
        check_mint0a(&mint_x, &token_program)?;
        check_mint0a(&mint_y, &token_program)?;
        Ok(EscrowTokTake {
            taker,
            taker_ata_x,
            taker_ata_y,
            escrow_ata_x,
            escrow_ata_y,
            mint_x,
            mint_y,
            escrow_pda,
            config_pda,
            token_program,
            system_program,
            atoken_program,
            amount_x,
            amount_y,
            id,
            decimal_x,
            decimal_y,
        })
    }
}

/// What a successful Take created.
#[derive(Clone, Copy, Debug, PartialEq, Eq, Structural)]
pub struct TakePlan {
    /// Whether the vault-side token account for asset Y had to be created.
    pub created_escrow_ata_y: bool,
    /// Whether the taker's token account for asset X had to be created.
    pub created_taker_ata_x: bool,
}

/// The first failing check of Take's state transition, in order; `None` when
/// Take succeeds.  Every taker-supplied field is cross-validated against the
/// stored record; a mismatch fails with that field's reason and changes
/// nothing.
pub open spec fn spec_take_process_err(s: EscrowTokTake, rent_min_tokacct: u64) -> Option<
    MyError,
> {
    match Escrow::spec_load(s.escrow_pda) {
        Err(e) => Some(e),
        Ok(rec) => {
            if rec.mint_x != s.mint_x.key@ {
                Some(MyError::EscrowMintX)
            } else if rec.mint_y != s.mint_y.key@ {
                Some(MyError::EscrowMintY)
            } else if rec.amount_x != s.amount_x {
                Some(MyError::InputAmountX)
            } else if rec.amount_y != s.amount_y {
                Some(MyError::InputAmountY)
            } else if rec.id != s.id {
                Some(MyError::EscrowId)
            } else if spec_ensure_ata_err(s.escrow_ata_y, s.escrow_pda.key@, s.mint_y.key@)
                is Some {
                spec_ensure_ata_err(s.escrow_ata_y, s.escrow_pda.key@, s.mint_y.key@)
            } else if !s.escrow_ata_y.is_writable {
                Some(MyError::NotWritable)
            } else if spec_ensure_ata_lamports(s.escrow_ata_y, rent_min_tokacct)
                < rent_min_tokacct {
                Some(MyError::NotRentExamptTokAcct22)
            } else if spec_ensure_ata_err(s.taker_ata_x, s.taker.key@, s.mint_x.key@) is Some {
                spec_ensure_ata_err(s.taker_ata_x, s.taker.key@, s.mint_x.key@)
            } else if !s.taker_ata_x.is_writable {
                Some(MyError::NotWritable)
            } else if spec_ensure_ata_lamports(s.taker_ata_x, rent_min_tokacct)
                < rent_min_tokacct {
                Some(MyError::NotRentExamptTokAcct22)
            } else if spec_ta_amount(s.taker_ata_y.data@) < s.amount_y {
                Some(MyError::MathUnderflow)
            } else if spec_ensure_ata_amount(s.escrow_ata_y) + s.amount_y > u64::MAX {
                Some(MyError::ArithmeticOverflow)
            } else if spec_ta_amount(s.escrow_ata_x.data@) < s.amount_x {
                Some(MyError::MathUnderflow)
            } else if spec_ensure_ata_amount(s.taker_ata_x) + s.amount_x > u64::MAX {
                Some(MyError::ArithmeticOverflow)
            } else if s.taker.lamports < spec_take_created_cost(s, rent_min_tokacct) {
                Some(MyError::InsufficientFunds)
            } else if s.taker.lamports - spec_take_created_cost(s, rent_min_tokacct)
                + s.escrow_pda.lamports > u64::MAX {
                Some(MyError::ArithmeticOverflow)
            } else {
                None
            }
        },
    }
}

/// What the taker pays to create missing token accounts.
pub open spec fn spec_take_created_cost(s: EscrowTokTake, rent_min_tokacct: u64) -> int {
    (if s.escrow_ata_y.data@.len() == 0 {
        rent_min_tokacct as int
    } else {
        0int
    }) + (if s.taker_ata_x.data@.len() == 0 {
        rent_min_tokacct as int
    } else {
        0int
    })
}

impl EscrowTokTake {
    /// Settle the swap: cross-validate every supplied field against the
    /// stored record, ensure the two receiving token accounts, move
    /// `amount_y` from the taker to the vault and `amount_x` from the vault
    /// to the taker, and release the escrow slot.  All checks precede the
    /// first mutation: a Take that fails — in particular on any field
    /// mismatch — changes nothing.
    ///
    /// On success: the taker's Y decreases by exactly `amount_y`, the vault's
    /// Y increases by exactly `amount_y`, the vault's X decreases by exactly
    /// `amount_x`, the taker's X increases by exactly `amount_x`, and the
    /// escrow slot is released.
    pub fn process(&mut self, rent_min_tokacct: u64) -> (r: Result<TakePlan, MyError>)
        requires
            old(self).wf(),
        ensures
            match r {
                Ok(plan) => {
                    let created_y = old(self).escrow_ata_y.data@.len() == 0;
                    let created_x = old(self).taker_ata_x.data@.len() == 0;
                    &&& spec_take_process_err(*old(self), rent_min_tokacct) is None
                    &&& plan.created_escrow_ata_y == created_y
                    &&& plan.created_taker_ata_x == created_x
                    &&& final(self).taker_ata_y.data@.len() == TOKEN_ACCOUNT_LEN
                    &&& spec_ta_amount(final(self).taker_ata_y.data@) == spec_ta_amount(
                        old(self).taker_ata_y.data@,
                    ) - old(self).amount_y
                    &&& spec_ta_mint(final(self).taker_ata_y.data@) == spec_ta_mint(
                        old(self).taker_ata_y.data@,
                    )
                    &&& spec_ta_owner(final(self).taker_ata_y.data@) == spec_ta_owner(
                        old(self).taker_ata_y.data@,
                    )
                    &&& final(self).escrow_ata_y.data@.len() == TOKEN_ACCOUNT_LEN
                    &&& spec_ta_amount(final(self).escrow_ata_y.data@)
                        == spec_ensure_ata_amount(old(self).escrow_ata_y) + old(self).amount_y
                    &&& spec_ta_mint(final(self).escrow_ata_y.data@) == old(self).mint_y.key@
                    &&& spec_ta_owner(final(self).escrow_ata_y.data@) == old(
                        self,
                    ).escrow_pda.key@
                    &&& final(self).escrow_ata_x.data@.len() == TOKEN_ACCOUNT_LEN
                    &&& spec_ta_amount(final(self).escrow_ata_x.data@) == spec_ta_amount(
                        old(self).escrow_ata_x.data@,
                    ) - old(self).amount_x
                    &&& spec_ta_mint(final(self).escrow_ata_x.data@) == spec_ta_mint(
                        old(self).escrow_ata_x.data@,
                    )
                    &&& spec_ta_owner(final(self).escrow_ata_x.data@) == spec_ta_owner(
                        old(self).escrow_ata_x.data@,
                    )
                    &&& final(self).taker_ata_x.data@.len() == TOKEN_ACCOUNT_LEN
                    &&& spec_ta_amount(final(self).taker_ata_x.data@) == spec_ensure_ata_amount(
                        old(self).taker_ata_x,
                    ) + old(self).amount_x
                    &&& spec_ta_mint(final(self).taker_ata_x.data@) == old(self).mint_x.key@
                    &&& spec_ta_owner(final(self).taker_ata_x.data@) == old(self).taker.key@
                    &&& final(self).escrow_pda.data@.len() == 0
                    &&& final(self).escrow_pda.lamports == 0
                    &&& final(self).taker.lamports == old(self).taker.lamports
                        - spec_take_created_cost(*old(self), rent_min_tokacct) + old(
                        self,
                    ).escrow_pda.lamports
                    &&& final(self).taker.key == old(self).taker.key
                    &&& final(self).mint_x == old(self).mint_x
                    &&& final(self).mint_y == old(self).mint_y
                    &&& final(self).config_pda == old(self).config_pda
                    &&& final(self).token_program == old(self).token_program
                    &&& final(self).system_program == old(self).system_program
                    &&& final(self).atoken_program == old(self).atoken_program
                    &&& final(self).amount_x == old(self).amount_x
                    &&& final(self).amount_y == old(self).amount_y
                    &&& final(self).id == old(self).id
                },
                Err(e) => *final(self) == *old(self) && spec_take_process_err(
                    *old(self),
                    rent_min_tokacct,
                ) == Some(e),
            },
    {
        let rec = Escrow::load(&self.escrow_pda)?;
        if !addr_eq(&rec.mint_x, &self.mint_x.key) {
            return Err(MyError::EscrowMintX);
        }
        if !addr_eq(&rec.mint_y, &self.mint_y.key) {
            return Err(MyError::EscrowMintY);
        }
        if rec.amount_x != self.amount_x {
            return Err(MyError::InputAmountX);
        }
        if rec.amount_y != self.amount_y {
            return Err(MyError::InputAmountY);
        }
        if rec.id != self.id {
            return Err(MyError::EscrowId);
        }
        let creating_y = self.escrow_ata_y.data.len() == 0;
        if !creating_y {
            check_ata_keys(&self.escrow_ata_y, &self.escrow_pda.key, &self.mint_y.key)?;
        }
        if !self.escrow_ata_y.is_writable {
            return Err(MyError::NotWritable);
        }
        if !creating_y && self.escrow_ata_y.lamports < rent_min_tokacct {
            return Err(MyError::NotRentExamptTokAcct22);
        }
        let creating_x = self.taker_ata_x.data.len() == 0;
        if !creating_x {
            check_ata_keys(&self.taker_ata_x, &self.taker.key, &self.mint_x.key)?;
        }
        if !self.taker_ata_x.is_writable {
            return Err(MyError::NotWritable);
        }
        if !creating_x && self.taker_ata_x.lamports < rent_min_tokacct {
            return Err(MyError::NotRentExamptTokAcct22);
        }
        let taker_y_bal = ta_amount(&self.taker_ata_y.data);
        if taker_y_bal < self.amount_y {
            return Err(MyError::MathUnderflow);
        }
        let vault_y_bal = if creating_y {
            0u64
        } else {
            ta_amount(&self.escrow_ata_y.data)
        };
        if vault_y_bal > u64::MAX - self.amount_y {
            return Err(MyError::ArithmeticOverflow);
        }
        let vault_x_bal = ta_amount(&self.escrow_ata_x.data);
        if vault_x_bal < self.amount_x {
            return Err(MyError::MathUnderflow);
        }
        let taker_x_bal = if creating_x {
            0u64
        } else {
            ta_amount(&self.taker_ata_x.data)
        };
        if taker_x_bal > u64::MAX - self.amount_x {
            return Err(MyError::ArithmeticOverflow);
        }
        let cost_y: u64 = if creating_y {
            rent_min_tokacct
        } else {
            0
        };
        if self.taker.lamports < cost_y {
            return Err(MyError::InsufficientFunds);
        }
        if creating_x && self.taker.lamports - cost_y < rent_min_tokacct {
            return Err(MyError::InsufficientFunds);
        }
        let cost_x: u64 = if creating_x {
            rent_min_tokacct
        } else {
            0
        };
        let after_cost = self.taker.lamports - cost_y - cost_x;
        if after_cost > u64::MAX - self.escrow_pda.lamports {
            return Err(MyError::ArithmeticOverflow);
        }
        // every check has passed: apply the whole transition
        let escrow_key = self.escrow_pda.key;
        let taker_key = self.taker.key;
        let mint_x_key = self.mint_x.key;
        let mint_y_key = self.mint_y.key;
        let created_y = match ensure_ata(
            &mut self.escrow_ata_y,
            &escrow_key,
            &mint_y_key,
            rent_min_tokacct,
        ) {
            Ok(c) => c,
            Err(e) => { return Err(e) },
        };
        let created_x = match ensure_ata(
            &mut self.taker_ata_x,
            &taker_key,
            &mint_x_key,
            rent_min_tokacct,
        ) {
            Ok(c) => c,
            Err(e) => { return Err(e) },
        };
        crate::account::ta_set_amount(&mut self.taker_ata_y.data, taker_y_bal - self.amount_y);
        crate::account::ta_set_amount(&mut self.escrow_ata_y.data, vault_y_bal + self.amount_y);
        crate::account::ta_set_amount(&mut self.escrow_ata_x.data, vault_x_bal - self.amount_x);
        crate::account::ta_set_amount(&mut self.taker_ata_x.data, taker_x_bal + self.amount_x);
        self.taker.lamports = after_cost + self.escrow_pda.lamports;
        self.escrow_pda.lamports = 0;
        self.escrow_pda.data = Vec::new();
        Ok(TakePlan { created_escrow_ata_y: created_y, created_taker_ata_x: created_x })
    }
}

/// Across a successful Take, each asset is conserved over the pair of
/// accounts it moves between: the taker's Y plus the vault's Y is unchanged,
/// and the vault's X plus the taker's X is unchanged.
pub proof fn lemma_take_conserves(
    old_taker_y: u64,
    old_vault_y: u64,
    old_vault_x: u64,
    old_taker_x: u64,
    new_taker_y: u64,
    new_vault_y: u64,
    new_vault_x: u64,
    new_taker_x: u64,
    amount_x: u64,
    amount_y: u64,
)
    requires
        new_taker_y == old_taker_y - amount_y,
        new_vault_y == old_vault_y + amount_y,
        new_vault_x == old_vault_x - amount_x,
        new_taker_x == old_taker_x + amount_x,
    ensures
        new_taker_y + new_vault_y == old_taker_y + old_vault_y,
        new_vault_x + new_taker_x == old_vault_x + old_taker_x,
{
}


/// The Cancel instruction, parsed and validated: return locked X to the
/// maker, sweep any stray Y, and tear the escrow down.
pub struct EscrowTokCancel {
    pub maker: Account,
    pub maker_ata_x: Account,
    pub maker_ata_y: Account,
    pub escrow_ata_x: Account,
    pub escrow_ata_y: Account,
    pub mint_x: Account,
    pub mint_y: Account,
    pub escrow_pda: Account,
    pub config_pda: Account,
    pub token_program: Account,
    pub system_program: Account,
    pub atoken_program: Account,
}

/// The first failing check of Cancel's account validation, in the order the
/// checks run; `None` when every check passes.  Cancel carries no payload.
pub open spec fn spec_cancel_try_err(data: Seq<u8>, a: Seq<Account>, rent_min_mint: u64) -> Option<
    MyError,
> {
    if data.len() != 0 {
        Some(MyError::InputDataLen)
    } else if a.len() != 12 {
        Some(MyError::NotEnoughAccountKeys)
    } else {
        let maker = a[0];
        let maker_ata_x = a[1];
        let maker_ata_y = a[2];
        let escrow_ata_x = a[3];
        let escrow_ata_y = a[4];
        let mint_x = a[5];
        let mint_y = a[6];
        let escrow_pda = a[7];
        let config_pda = a[8];
        let token_program = a[9];
        let system_program = a[10];
        let atoken_program = a[11];
        if !maker.is_signer {
            Some(MyError::NotSigner)
        } else if !token_program.executable {
            Some(MyError::NotExecutable)
        } else if system_program.key@ != SYSTEM_PROGRAM_ID@ {
            Some(MyError::SystemProgram)
        } else if atoken_program.key@ != ATA_PROGRAM_ID@ {
            Some(MyError::AtaCheckFailed)
        } else if !escrow_ata_x.is_writable {
            Some(MyError::NotWritable)
        } else if spec_check_ata(escrow_ata_x, escrow_pda.key@, mint_x.key@) is Err {
            guard_err(spec_check_ata(escrow_ata_x, escrow_pda.key@, mint_x.key@))
        } else if !escrow_ata_y.is_writable {
            Some(MyError::NotWritable)
        } else if !escrow_pda.is_writable {
            Some(MyError::NotWritable)
        } else if !config_pda.is_writable {
            Some(MyError::NotWritable)
        } else if escrow_pda.data@.len() == 0 {
            Some(MyError::EscrowDataEmpty)
        } else if mint_x.lamports < rent_min_mint {
            Some(MyError::NotRentExamptMint22)
        } else if mint_y.lamports < rent_min_mint {
            Some(MyError::NotRentExamptMint22)
        } else if spec_check_mint0a(mint_x, token_program) is Err {
            guard_err(spec_check_mint0a(mint_x, token_program))
        } else if spec_check_mint0a(mint_y, token_program) is Err {
            guard_err(spec_check_mint0a(mint_y, token_program))
        } else {
            None
        }
    }
}

impl EscrowTokCancel {
    /// The shape every validated Cancel carries into `process`.
    pub open spec fn wf(self) -> bool {
        self.escrow_ata_x.data@.len() == TOKEN_ACCOUNT_LEN
    }

    /// Match the exact account arity and run every guard; Cancel takes no
    /// payload and nothing is mutated here.
    pub fn try_from(data: &[u8], accounts: Vec<Account>, rent_min_mint: u64) -> (r: Result<
        EscrowTokCancel,
        MyError,
    >)
        ensures
            match r {
                Ok(t) => {
                    &&& spec_cancel_try_err(data@, accounts@, rent_min_mint) is None
                    &&& t.wf()
                    &&& t.maker == accounts@[0]
                    &&& t.maker_ata_x == accounts@[1]
                    &&& t.maker_ata_y == accounts@[2]
                    &&& t.escrow_ata_x == accounts@[3]
                    &&& t.escrow_ata_y == accounts@[4]
                    &&& t.mint_x == accounts@[5]
                    &&& t.mint_y == accounts@[6]
                    &&& t.escrow_pda == accounts@[7]
                    &&& t.config_pda == accounts@[8]
                    &&& t.token_program == accounts@[9]
                    &&& t.system_program == accounts@[10]
                    &&& t.atoken_program == accounts@[11]
                },
                Err(e) => spec_cancel_try_err(data@, accounts@, rent_min_mint) == Some(e),
            },
    {
        check_data_len(data, 0)?;
        let mut v = accounts;
        if v.len() != 12 {
            return Err(MyError::NotEnoughAccountKeys);
        }
        let atoken_program = v.pop().unwrap();
        let system_program = v.pop().unwrap();
        let token_program = v.pop().unwrap();
        let config_pda = v.pop().unwrap();
        let escrow_pda = v.pop().unwrap();
        let mint_y = v.pop().unwrap();
        let mint_x = v.pop().unwrap();
        let escrow_ata_y = v.pop().unwrap();
        let escrow_ata_x = v.pop().unwrap();
        let maker_ata_y = v.pop().unwrap();
        let maker_ata_x = v.pop().unwrap();
        let maker = v.pop().unwrap();
        check_signer(&maker)?;
        executable(&token_program)?;
        check_sysprog(&system_program)?;
        check_atoken_gpvbd(&atoken_program)?;
        writable(&escrow_ata_x)?;
        check_ata_keys(&escrow_ata_x, &escrow_pda.key, &mint_x.key)?;
        writable(&escrow_ata_y)?;
        writable(&escrow_pda)?;
        writable(&config_pda)?;
        if escrow_pda.data.len() == 0 {
            return Err(MyError::EscrowDataEmpty);
        }
        crate::guards::rent_exempt_mint(&mint_x, rent_min_mint)?;
        crate::guards::rent_exempt_mint(&mint_y, rent_min_mint)?;
        check_mint0a(&mint_x, &token_program)?;
        check_mint0a(&mint_y, &token_program)?;
        Ok(EscrowTokCancel {
            maker,
            maker_ata_x,
            maker_ata_y,
            escrow_ata_x,
            escrow_ata_y,
            mint_x,
            mint_y,
            escrow_pda,
            config_pda,
            token_program,
            system_program,
            atoken_program,
        })
    }
}

/// What a successful Cancel created and swept.
#[derive(Clone, Copy, Debug, PartialEq, Eq, Structural)]
pub struct CancelPlan {
    /// Whether the maker's token account for asset X had to be created.
    pub created_maker_ata_x: bool,
    /// Whether the maker's token account for asset Y had to be created.
    pub created_maker_ata_y: bool,
    /// The stray asset-Y balance swept back to the maker (zero when none).
    pub swept_y: u64,
    /// Whether a Y-side vault account existed and was closed.
    pub closed_escrow_ata_y: bool,
}

/// The stray asset-Y balance sitting in the Y-side vault account, if one
/// exists.
pub open spec fn spec_cancel_sweep(s: EscrowTokCancel) -> u64 {
    if s.escrow_ata_y.data@.len() != 0 {
        spec_ta_amount(s.escrow_ata_y.data@)
    } else {
        0u64
    }
}

/// What the maker pays to create missing receiving accounts.
pub open spec fn spec_cancel_created_cost(s: EscrowTokCancel, rent_min_tokacct: u64) -> int {
    (if s.maker_ata_x.data@.len() == 0 {
        rent_min_tokacct as int
    } else {
        0int
    }) + (if spec_cancel_sweep(s) > 0 && s.maker_ata_y.data@.len() == 0 {
        rent_min_tokacct as int
    } else {
        0int
    })
}

/// The native balance the closes hand back to the maker.
pub open spec fn spec_cancel_released(s: EscrowTokCancel) -> int {
    (if s.escrow_ata_y.data@.len() != 0 {
        s.escrow_ata_y.lamports as int
    } else {
        0int
    }) + s.escrow_ata_x.lamports + s.escrow_pda.lamports
}

/// The first failing check of Cancel's state transition, in order; `None`
/// when Cancel succeeds.  A Y-side vault balance at or above the wanted
/// amount signals an in-flight Take, and cancellation is refused.
pub open spec fn spec_cancel_process_err(s: EscrowTokCancel, rent_min_tokacct: u64) -> Option<
    MyError,
> {
    match Escrow::spec_load(s.escrow_pda) {
        Err(e) => Some(e),
        Ok(rec) => {
            if s.maker.key@ != rec.maker {
                Some(MyError::OnlyMaker)
            } else if rec.mint_x != s.mint_x.key@ {
                Some(MyError::EscrowMintX)
            } else if rec.mint_y != s.mint_y.key@ {
                Some(MyError::EscrowMintY)
            } else if rec.amount_y == 0 {
                Some(MyError::ZeroAsInput)
            } else if spec_check_decimals(s.mint_x, rec.decimal_x) is Err {
                guard_err(spec_check_decimals(s.mint_x, rec.decimal_x))
            } else if spec_check_decimals(s.mint_y, rec.decimal_y) is Err {
                guard_err(spec_check_decimals(s.mint_y, rec.decimal_y))
            } else if s.escrow_ata_y.data@.len() != 0 && s.escrow_ata_y.data@.len()
                != TOKEN_ACCOUNT_LEN {
                Some(MyError::InvalidAccountData)
            } else if s.escrow_ata_y.data@.len() != 0 && s.escrow_ata_y.owner@
                != TOKEN_PROGRAM_ID@ {
                Some(MyError::InvalidAccountData)
            } else if s.escrow_ata_y.data@.len() != 0 && spec_ta_amount(s.escrow_ata_y.data@)
                >= rec.amount_y {
                Some(MyError::MakerToWithdrawTokenY)
            } else if spec_ensure_ata_err(s.maker_ata_x, s.maker.key@, s.mint_x.key@) is Some {
                spec_ensure_ata_err(s.maker_ata_x, s.maker.key@, s.mint_x.key@)
            } else if !s.maker_ata_x.is_writable {
                Some(MyError::NotWritable)
            } else if spec_ensure_ata_lamports(s.maker_ata_x, rent_min_tokacct)
                < rent_min_tokacct {
                Some(MyError::NotRentExamptTokAcct22)
            } else if spec_ta_amount(s.escrow_ata_x.data@) < rec.amount_x {
                Some(MyError::MathUnderflow)
            } else if spec_ta_amount(s.escrow_ata_x.data@) != rec.amount_x {
                Some(MyError::InvalidAccountData)
            } else if spec_ensure_ata_amount(s.maker_ata_x) + rec.amount_x > u64::MAX {
                Some(MyError::ArithmeticOverflow)
            } else if spec_cancel_sweep(s) > 0 && spec_ensure_ata_err(
                s.maker_ata_y,
                s.maker.key@,
                s.mint_y.key@,
            ) is Some {
                spec_ensure_ata_err(s.maker_ata_y, s.maker.key@, s.mint_y.key@)
            } else if spec_cancel_sweep(s) > 0 && !s.maker_ata_y.is_writable {
                Some(MyError::NotWritable)
            } else if spec_cancel_sweep(s) > 0 && spec_ensure_ata_lamports(
                s.maker_ata_y,
                rent_min_tokacct,
            ) < rent_min_tokacct {
                Some(MyError::NotRentExamptTokAcct22)
            } else if spec_cancel_sweep(s) > 0 && spec_ensure_ata_amount(s.maker_ata_y)
                + spec_cancel_sweep(s) > u64::MAX {
                Some(MyError::ArithmeticOverflow)
            } else if s.maker.lamports < spec_cancel_created_cost(s, rent_min_tokacct) {
                Some(MyError::InsufficientFunds)
            } else if s.maker.lamports - spec_cancel_created_cost(s, rent_min_tokacct)
                + spec_cancel_released(s) > u64::MAX {
                Some(MyError::ArithmeticOverflow)
            } else {
                None
            }
        },
    }
}

impl EscrowTokCancel {
    /// Tear the offer down: only the stored maker may cancel; the stored
    /// decimals are re-validated against the live mints; a Y-side balance at
    /// or above the wanted amount refuses cancellation rather than dropping
    /// funds.  Otherwise all locked X returns to the maker, any stray smaller
    /// Y balance is swept to the maker, both vault token accounts close, and
    /// the escrow slot is released.  All checks precede the first mutation.
    ///
    /// On success the maker receives 100% of the locked X and the escrow
    /// slot no longer exists.
    pub fn process(&mut self, rent_min_tokacct: u64) -> (r: Result<CancelPlan, MyError>)
        requires
            old(self).wf(),
        ensures
            match r {
                Ok(plan) => {
                    let rec = Escrow::spec_load(old(self).escrow_pda)->Ok_0;
                    let sweep = spec_cancel_sweep(*old(self));
                    &&& spec_cancel_process_err(*old(self), rent_min_tokacct) is None
                    &&& plan.created_maker_ata_x == (old(self).maker_ata_x.data@.len() == 0)
                    &&& plan.swept_y == sweep
                    &&& plan.closed_escrow_ata_y == (old(self).escrow_ata_y.data@.len() != 0)
                    &&& final(self).maker_ata_x.data@.len() == TOKEN_ACCOUNT_LEN
                    &&& spec_ta_amount(final(self).maker_ata_x.data@) == spec_ensure_ata_amount(
                        old(self).maker_ata_x,
                    ) + rec.amount_x
                    &&& spec_ta_mint(final(self).maker_ata_x.data@) == old(self).mint_x.key@
                    &&& spec_ta_owner(final(self).maker_ata_x.data@) == old(self).maker.key@
                    &&& (sweep > 0 ==> {
                        &&& plan.created_maker_ata_y == (old(self).maker_ata_y.data@.len() == 0)
                        &&& final(self).maker_ata_y.data@.len() == TOKEN_ACCOUNT_LEN
                        &&& spec_ta_amount(final(self).maker_ata_y.data@)
                            == spec_ensure_ata_amount(old(self).maker_ata_y) + sweep
                        &&& spec_ta_mint(final(self).maker_ata_y.data@) == old(self).mint_y.key@
                        &&& spec_ta_owner(final(self).maker_ata_y.data@) == old(self).maker.key@
                    })
                    &&& (sweep == 0 ==> final(self).maker_ata_y == old(self).maker_ata_y
                        && !plan.created_maker_ata_y)
                    &&& final(self).escrow_ata_x.data@.len() == 0
                    &&& final(self).escrow_ata_x.lamports == 0
                    &&& final(self).escrow_ata_y.data@.len() == 0
                    &&& final(self).escrow_ata_y.lamports == 0
                    &&& final(self).escrow_pda.data@.len() == 0
                    &&& final(self).escrow_pda.lamports == 0
                    &&& final(self).maker.lamports == old(self).maker.lamports
                        - spec_cancel_created_cost(*old(self), rent_min_tokacct)
                        + spec_cancel_released(*old(self))
                    &&& final(self).maker.key == old(self).maker.key
                    &&& final(self).mint_x == old(self).mint_x
                    &&& final(self).mint_y == old(self).mint_y
                    &&& final(self).config_pda == old(self).config_pda
                    &&& final(self).token_program == old(self).token_program
                    &&& final(self).system_program == old(self).system_program
                    &&& final(self).atoken_program == old(self).atoken_program
                },
                Err(e) => *final(self) == *old(self) && spec_cancel_process_err(
                    *old(self),
                    rent_min_tokacct,
                ) == Some(e),
            },
    {
        let rec = Escrow::load(&self.escrow_pda)?;
        if !addr_eq(&self.maker.key, &rec.maker) {
            return Err(MyError::OnlyMaker);
        }
        if !addr_eq(&rec.mint_x, &self.mint_x.key) {
            return Err(MyError::EscrowMintX);
        }
        if !addr_eq(&rec.mint_y, &self.mint_y.key) {
            return Err(MyError::EscrowMintY);
        }
        if rec.amount_y == 0 {
            return Err(MyError::ZeroAsInput);
        }
        check_decimals(&self.mint_x, rec.decimal_x)?;
        check_decimals(&self.mint_y, rec.decimal_y)?;
        let has_ata_y = self.escrow_ata_y.data.len() != 0;
        if has_ata_y {
            if self.escrow_ata_y.data.len() != TOKEN_ACCOUNT_LEN {
                return Err(MyError::InvalidAccountData);
            }
            if !addr_eq(&self.escrow_ata_y.owner, &TOKEN_PROGRAM_ID) {
                return Err(MyError::InvalidAccountData);
            }
            if ta_amount(&self.escrow_ata_y.data) >= rec.amount_y {
                return Err(MyError::MakerToWithdrawTokenY);
            }
        }
        let creating_x = self.maker_ata_x.data.len() == 0;
        if !creating_x {
            check_ata_keys(&self.maker_ata_x, &self.maker.key, &self.mint_x.key)?;
        }
        if !self.maker_ata_x.is_writable {
            return Err(MyError::NotWritable);
        }
        if !creating_x && self.maker_ata_x.lamports < rent_min_tokacct {
            return Err(MyError::NotRentExamptTokAcct22);
        }
        let vault_x_bal = ta_amount(&self.escrow_ata_x.data);
        if vault_x_bal < rec.amount_x {
            return Err(MyError::MathUnderflow);
        }
        if vault_x_bal != rec.amount_x {
            // the token program refuses to close an account still holding
            // tokens beyond the recorded lock
            return Err(MyError::InvalidAccountData);
        }
        let maker_x_bal = if creating_x {
            0u64
        } else {
            ta_amount(&self.maker_ata_x.data)
        };
        if maker_x_bal > u64::MAX - rec.amount_x {
            return Err(MyError::ArithmeticOverflow);
        }
        let sweep: u64 = if has_ata_y {
            ta_amount(&self.escrow_ata_y.data)
        } else {
            0
        };
        let creating_y = self.maker_ata_y.data.len() == 0;
        let mut maker_y_bal: u64 = 0;
        if sweep > 0 {
            if !creating_y {
                check_ata_keys(&self.maker_ata_y, &self.maker.key, &self.mint_y.key)?;
            }
            if !self.maker_ata_y.is_writable {
                return Err(MyError::NotWritable);
            }
            if !creating_y && self.maker_ata_y.lamports < rent_min_tokacct {
                return Err(MyError::NotRentExamptTokAcct22);
            }
            if !creating_y {
                maker_y_bal = ta_amount(&self.maker_ata_y.data);
            }
            if maker_y_bal > u64::MAX - sweep {
                return Err(MyError::ArithmeticOverflow);
            }
        }
        let cost_x: u64 = if creating_x {
            rent_min_tokacct
        } else {
            0
        };
        if self.maker.lamports < cost_x {
            return Err(MyError::InsufficientFunds);
        }
        let cost_y: u64 = if sweep > 0 && creating_y {
            rent_min_tokacct
        } else {
            0
        };
        if self.maker.lamports - cost_x < cost_y {
            return Err(MyError::InsufficientFunds);
        }
        let after_cost = self.maker.lamports - cost_x - cost_y;
        let in_y: u64 = if has_ata_y {
            self.escrow_ata_y.lamports
        } else {
            0
        };
        if after_cost > u64::MAX - in_y {
            return Err(MyError::ArithmeticOverflow);
        }
        if after_cost + in_y > u64::MAX - self.escrow_ata_x.lamports {
            return Err(MyError::ArithmeticOverflow);
        }
        if after_cost + in_y + self.escrow_ata_x.lamports > u64::MAX - self.escrow_pda.lamports {
            return Err(MyError::ArithmeticOverflow);
        }
        // every check has passed: apply the whole transition
        let maker_key = self.maker.key;
        let mint_x_key = self.mint_x.key;
        let mint_y_key = self.mint_y.key;
        let created_x = match ensure_ata(
            &mut self.maker_ata_x,
            &maker_key,
            &mint_x_key,
            rent_min_tokacct,
        ) {
            Ok(c) => c,
            Err(e) => { return Err(e) },
        };
        crate::account::ta_set_amount(&mut self.maker_ata_x.data, maker_x_bal + rec.amount_x);
        let mut created_y_flag = false;
        if sweep > 0 {
            let created_y = match ensure_ata(
                &mut self.maker_ata_y,
                &maker_key,
                &mint_y_key,
                rent_min_tokacct,
            ) {
                Ok(c) => c,
                Err(e) => { return Err(e) },
            };
            created_y_flag = created_y;
            crate::account::ta_set_amount(&mut self.maker_ata_y.data, maker_y_bal + sweep);
        }
        let in_x = self.escrow_ata_x.lamports;
        let in_pda = self.escrow_pda.lamports;
        self.escrow_ata_y.data = Vec::new();
        self.escrow_ata_y.lamports = 0;
        self.escrow_ata_x.data = Vec::new();
        self.escrow_ata_x.lamports = 0;
        self.maker.lamports = after_cost + in_y + in_x + in_pda;
        self.escrow_pda.data = Vec::new();
        self.escrow_pda.lamports = 0;
        Ok(CancelPlan {
            created_maker_ata_x: created_x,
            created_maker_ata_y: created_y_flag,
            swept_y: sweep,
            closed_escrow_ata_y: has_ata_y,
        })
    }
}

} // verus!
