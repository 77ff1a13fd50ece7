//! The model of a ledger account ("slot"): an addressed unit of persistent
//! storage with a native balance, a byte payload, a declared owner program,
//! and per-call signer/writable flags.
//!
//! Token accounts and mints are read-only inputs owned by the external
//! token-accounting program; the accessors below read their fixed-offset
//! fields out of the raw payload bytes.

use vstd::bytes::{spec_u64_from_le_bytes, u64_from_le_bytes, u64_to_le_bytes};
use vstd::prelude::*;

verus! {

/// One ledger account as an instruction sees it.
pub struct Account {
    /// The account's address.
    pub key: [u8; 32],
    /// Native balance.
    pub lamports: u64,
    /// The stored byte payload.
    pub data: Vec<u8>,
    /// The program that owns (may mutate) this account.
    pub owner: [u8; 32],
    /// Whether the holder of this address signed the transaction.
    pub is_signer: bool,
    /// Whether the instruction declared this account mutable.
    pub is_writable: bool,
    /// Whether this account is an executable program.
    pub executable: bool,
}

/// Byte length of a token-holding account's payload.
pub const TOKEN_ACCOUNT_LEN: usize = 165;

/// Byte length of a mint's payload (base layout, shared by both
/// token-accounting programs).
pub const MINT_LEN: usize = 82;

/// The mint a token account holds, from its payload.
pub open spec fn spec_ta_mint(d: Seq<u8>) -> Seq<u8> {
    d.subrange(0, 32)
}

/// The wallet a token account belongs to, from its payload.
pub open spec fn spec_ta_owner(d: Seq<u8>) -> Seq<u8> {
    d.subrange(32, 64)
}

/// The token balance a token account holds, from its payload.
pub open spec fn spec_ta_amount(d: Seq<u8>) -> u64 {
    spec_u64_from_le_bytes(d.subrange(64, 72))
}

/// Whether a mint still has a mint authority, from its payload.
pub open spec fn spec_mint_has_authority(d: Seq<u8>) -> bool {
    d[0] == 1u8
}

/// The mint authority address, from a mint's payload.
pub open spec fn spec_mint_authority(d: Seq<u8>) -> Seq<u8> {
    d.subrange(4, 36)
}

/// The total supply, from a mint's payload.
pub open spec fn spec_mint_supply(d: Seq<u8>) -> u64 {
    spec_u64_from_le_bytes(d.subrange(36, 44))
}

/// The decimals, from a mint's payload.
pub open spec fn spec_mint_decimals(d: Seq<u8>) -> u8 {
    d[44]
}

/// Read the mint address out of a token account's payload.
pub fn ta_mint(data: &Vec<u8>) -> (r: [u8; 32])
    requires
        data@.len() == TOKEN_ACCOUNT_LEN,
    ensures
        r@ == spec_ta_mint(data@),
{
    crate::parse::read_addr(data.as_slice(), 0)
}

/// Read the owning wallet out of a token account's payload.
pub fn ta_owner(data: &Vec<u8>) -> (r: [u8; 32])
    requires
        data@.len() == TOKEN_ACCOUNT_LEN,
    ensures
        r@ == spec_ta_owner(data@),
{
    crate::parse::read_addr(data.as_slice(), 32)
}

/// Read the token balance out of a token account's payload.
pub fn ta_amount(data: &Vec<u8>) -> (r: u64)
    requires
        data@.len() == TOKEN_ACCOUNT_LEN,
    ensures
        r == spec_ta_amount(data@),
{
    crate::parse::read_u64_le(data.as_slice(), 64)
}

/// Read the decimals out of a mint's payload.
pub fn mint_decimals(data: &Vec<u8>) -> (r: u8)
    requires
        data@.len() >= MINT_LEN,
    ensures
        r == spec_mint_decimals(data@),
{
    data[44]
}

/// Read the mint authority out of a mint's payload, when one is present.
pub fn mint_authority(data: &Vec<u8>) -> (r: Option<[u8; 32]>)
    requires
        data@.len() >= MINT_LEN,
    ensures
        spec_mint_has_authority(data@) ==> (r matches Some(a) && a@ == spec_mint_authority(
            data@,
        )),
        !spec_mint_has_authority(data@) ==> r is None,
{
    if data[0] == 1 {
        Some(crate::parse::read_addr(data.as_slice(), 4))
    } else {
        None
    }
}

/// Read the total supply out of a mint's payload.
pub fn mint_supply(data: &Vec<u8>) -> (r: u64)
    requires
        data@.len() >= MINT_LEN,
    ensures
        r == spec_mint_supply(data@),
{
    crate::parse::read_u64_le(data.as_slice(), 36)
}

/// Append a 32-byte address to a byte vector.
pub fn push_addr(v: &mut Vec<u8>, a: &[u8; 32])
    ensures
        final(v)@ == old(v)@ + a@,
{
    let mut i: usize = 0;
    while i < 32
        invariant
            i <= 32,
            v@ == old(v)@ + a@.subrange(0, i as int),
        decreases 32 - i,
    {
        v.push(a[i]);
        proof {
            assert(old(v)@ + a@.subrange(0, i as int) + seq![a@[i as int]] =~= old(v)@
                + a@.subrange(0, i as int + 1));
        }
        i += 1;
    }
    proof {
        assert(a@.subrange(0, 32) =~= a@);
    }
}

/// Append `n` zero bytes to a byte vector.
pub fn push_zeros(v: &mut Vec<u8>, n: usize)
    ensures
        final(v)@.len() == old(v)@.len() + n,
        forall|i: int| 0 <= i < old(v)@.len() ==> final(v)@[i] == old(v)@[i],
        forall|i: int| old(v)@.len() <= i < final(v)@.len() ==> final(v)@[i] == 0u8,
{
    let mut i: usize = 0;
    while i < n
        invariant
            i <= n,
            v@.len() == old(v)@.len() + i,
            forall|j: int| 0 <= j < old(v)@.len() ==> v@[j] == old(v)@[j],
            forall|j: int| old(v)@.len() <= j < v@.len() ==> v@[j] == 0u8,
        decreases n - i,
    {
        v.push(0u8);
        i += 1;
    }
}

/// Build the payload of a freshly initialized token account holding `amount`
/// of `mint` for `owner`.
pub fn token_account_bytes(mint: &[u8; 32], owner: &[u8; 32], amount: u64) -> (r: Vec<u8>)
    ensures
        r@.len() == TOKEN_ACCOUNT_LEN,
        spec_ta_mint(r@) == mint@,
        spec_ta_owner(r@) == owner@,
        spec_ta_amount(r@) == amount,
{
    let mut v: Vec<u8> = Vec::new();
    push_addr(&mut v, mint);
    push_addr(&mut v, owner);
    let amt = u64_to_le_bytes(amount);
    let mut i: usize = 0;
    while i < 8
        invariant
            amt@.len() == 8,
            amt@ == vstd::bytes::spec_u64_to_le_bytes(amount),
            i <= 8,
            v@ == mint@ + owner@ + amt@.subrange(0, i as int),
        decreases 8 - i,
    {
        v.push(amt[i]);
        proof {
            assert(mint@ + owner@ + amt@.subrange(0, i as int) + seq![amt@[i as int]] =~= mint@
                + owner@ + amt@.subrange(0, i as int + 1));
        }
        i += 1;
    }
    proof {
        assert(amt@.subrange(0, 8) =~= amt@);
    }
    // delegate (none), state (initialized), native flag, delegated amount,
    // close authority (none): all zero except the state byte
    push_zeros(&mut v, 36);
    v.push(1u8);
    push_zeros(&mut v, 56);
    proof {
        vstd::bytes::lemma_auto_spec_u64_to_from_le_bytes();
        assert(v@.subrange(0, 32) =~= mint@);
        assert(v@.subrange(32, 64) =~= owner@);
        assert(v@.subrange(64, 72) =~= vstd::bytes::spec_u64_to_le_bytes(amount));
    }
    v
}

/// Build the payload of a mint with the given authority, supply, and
/// decimals.
pub fn mint_bytes(authority: Option<&[u8; 32]>, supply: u64, decimals: u8) -> (r: Vec<u8>)
    ensures
        r@.len() == MINT_LEN,
        spec_mint_has_authority(r@) == (authority is Some),
        authority matches Some(a) ==> spec_mint_authority(r@) == a@,
        spec_mint_supply(r@) == supply,
        spec_mint_decimals(r@) == decimals,
{
    let mut v: Vec<u8> = Vec::new();
    match authority {
        Some(a) => {
            v.push(1u8);
            push_zeros(&mut v, 3);
            proof {
                assert(v@ =~= seq![1u8, 0u8, 0u8, 0u8]);
            }
            push_addr(&mut v, a);
        },
        None => {
            push_zeros(&mut v, 4);
            push_zeros(&mut v, 32);
        },
    }
    let ghost head = v@;
    let amt = u64_to_le_bytes(supply);
    let mut i: usize = 0;
    while i < 8
        invariant
            amt@.len() == 8,
            amt@ == vstd::bytes::spec_u64_to_le_bytes(supply),
            i <= 8,
            v@ == head + amt@.subrange(0, i as int),
        decreases 8 - i,
    {
        v.push(amt[i]);
        proof {
            assert(head + amt@.subrange(0, i as int) + seq![amt@[i as int]] =~= head
                + amt@.subrange(0, i as int + 1));
        }
        i += 1;
    }
    proof {
        assert(amt@.subrange(0, 8) =~= amt@);
    }
    v.push(decimals);
    v.push(1u8);
    push_zeros(&mut v, 36);
    proof {
        vstd::bytes::lemma_auto_spec_u64_to_from_le_bytes();
        assert(v@.subrange(36, 44) =~= vstd::bytes::spec_u64_to_le_bytes(supply));
        if authority is Some {
            assert(v@.subrange(4, 36) =~= authority->0@);
        }
    }
    v
}

/// Overwrite the balance field of a token account payload, leaving every
/// other byte as it was.
pub fn ta_set_amount(data: &mut Vec<u8>, amount: u64)
    requires
        old(data)@.len() == TOKEN_ACCOUNT_LEN,
    ensures
        final(data)@.len() == TOKEN_ACCOUNT_LEN,
        spec_ta_amount(final(data)@) == amount,
        spec_ta_mint(final(data)@) == spec_ta_mint(old(data)@),
        spec_ta_owner(final(data)@) == spec_ta_owner(old(data)@),
        forall|i: int| 0 <= i < 165 && !(64 <= i < 72) ==> final(data)@[i] == old(data)@[i],
{
    let amt = u64_to_le_bytes(amount);
    let mut i: usize = 0;
    while i < 8
        invariant
            amt@.len() == 8,
            amt@ == vstd::bytes::spec_u64_to_le_bytes(amount),
            i <= 8,
            data@.len() == TOKEN_ACCOUNT_LEN,
            forall|j: int| 0 <= j < i ==> data@[64 + j] == amt@[j],
            forall|j: int| 0 <= j < 165 && !(64 <= j < 64 + i) ==> data@[j] == old(data)@[j],
        decreases 8 - i,
    {
        data[64 + i] = amt[i];
        i += 1;
    }
    proof {
        vstd::bytes::lemma_auto_spec_u64_to_from_le_bytes();
        assert(data@.subrange(64, 72) =~= vstd::bytes::spec_u64_to_le_bytes(amount));
        assert(spec_ta_mint(data@) =~= spec_ta_mint(old(data)@));
        assert(spec_ta_owner(data@) =~= spec_ta_owner(old(data)@));
    }
}


/// Overwrite the supply field of a mint payload, leaving every other byte as
/// it was.
pub fn mint_set_supply(data: &mut Vec<u8>, supply: u64)
    requires
        old(data)@.len() == MINT_LEN,
    ensures
        final(data)@.len() == MINT_LEN,
        spec_mint_supply(final(data)@) == supply,
        spec_mint_decimals(final(data)@) == spec_mint_decimals(old(data)@),
        spec_mint_has_authority(final(data)@) == spec_mint_has_authority(old(data)@),
        spec_mint_authority(final(data)@) == spec_mint_authority(old(data)@),
        forall|i: int| 0 <= i < 82 && !(36 <= i < 44) ==> final(data)@[i] == old(data)@[i],
{
    let amt = u64_to_le_bytes(supply);
    let mut i: usize = 0;
    while i < 8
        invariant
            amt@.len() == 8,
            amt@ == vstd::bytes::spec_u64_to_le_bytes(supply),
            i <= 8,
            data@.len() == MINT_LEN,
            forall|j: int| 0 <= j < i ==> data@[36 + j] == amt@[j],
            forall|j: int| 0 <= j < 82 && !(36 <= j < 36 + i) ==> data@[j] == old(data)@[j],
        decreases 8 - i,
    {
        data[36 + i] = amt[i];
        i += 1;
    }
    proof {
        vstd::bytes::lemma_auto_spec_u64_to_from_le_bytes();
        assert(data@.subrange(36, 44) =~= vstd::bytes::spec_u64_to_le_bytes(supply));
        assert(spec_mint_authority(data@) =~= spec_mint_authority(old(data)@));
    }
}

} // verus!
