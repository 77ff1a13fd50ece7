//! Derived addresses.
//!
//! Every storage slot this program owns sits at an address derived
//! deterministically from a domain tag, an owner address, and (for escrows) a
//! numeric discriminator, together with a collision-avoidance byte.  The guard
//! layer re-derives the address and compares it bit for bit with what the
//! caller supplied.

use crate::errors::MyError;
use crate::PROGRAM_ID;
use vstd::bytes::{spec_u64_to_le_bytes, u64_to_le_bytes};
use vstd::prelude::*;

verus! {

/// The ledger's token-accounting program.
pub const TOKEN_PROGRAM_ID: [u8; 32] = [
    6, 221, 246, 225, 215, 101, 161, 147, 217, 203, 225, 70, 206, 235, 121, 172, 28, 180, 133, 237,
    95, 91, 55, 145, 58, 140, 245, 133, 126, 255, 0, 169,
];

/// The newer token-accounting program with extensions.
pub const TOKEN_2022_PROGRAM_ID: [u8; 32] = [
    6, 221, 246, 225, 238, 117, 143, 222, 24, 66, 93, 188, 228, 108, 205, 218, 182, 26, 252, 77,
    131, 185, 13, 39, 254, 189, 249, 40, 216, 161, 139, 252,
];

/// The associated-account-address program.
pub const ATA_PROGRAM_ID: [u8; 32] = [
    140, 151, 37, 143, 78, 36, 137, 241, 187, 61, 16, 41, 20, 142, 13, 131, 11, 90, 19, 153, 218,
    255, 16, 132, 4, 142, 123, 216, 219, 233, 248, 89,
];

/// The system program that creates and funds raw accounts.
pub const SYSTEM_PROGRAM_ID: [u8; 32] = [
    0, 0, 0, 0, 0, 0, 0, 0, 0, 0, 0, 0, 0, 0, 0, 0, 0, 0, 0, 0, 0, 0, 0, 0, 0, 0, 0, 0, 0, 0, 0,
    0,
];

/// The minimum-retention (rent) oracle's well-known account.
pub const RENT_SYSVAR_ID: [u8; 32] = [
    6, 167, 213, 23, 25, 44, 92, 81, 33, 140, 201, 76, 61, 74, 241, 127, 88, 218, 238, 8, 155, 161,
    253, 68, 227, 219, 217, 138, 0, 0, 0, 0,
];

/// Domain tag for per-owner vault slots: the bytes of "vault".
pub const VAULT_SEED: [u8; 5] = [118, 97, 117, 108, 116];

/// Domain tag for per-owner config records: the bytes of "config".
pub const CONFIG_SEED: [u8; 6] = [99, 111, 110, 102, 105, 103];

/// Domain tag for escrow records: the bytes of "escrow".
pub const ESCROW_SEED: [u8; 6] = [101, 115, 99, 114, 111, 119];

/// Compare two addresses bit for bit.
pub fn addr_eq(a: &[u8; 32], b: &[u8; 32]) -> (r: bool)
    ensures
        r == (a@ == b@),
{
    let mut i: usize = 0;
    while i < 32
        invariant
            i <= 32,
            forall|j: int| 0 <= j < i ==> a@[j] == b@[j],
        decreases 32 - i,
    {
        if a[i] != b[i] {
            return false;
        }
        i += 1;
    }
    proof {
        assert(a@ =~= b@);
    }
    true
}

/// The derived (address, collision byte) pair for a seed list under a program
/// identity, or `None` when the search for a collision byte fails or a seed
/// limit is exceeded.  The derivation is a pure hash of its arguments, so two
/// derivations from equal inputs always agree.
pub uninterp spec fn pda_derivation(seeds: Seq<Seq<u8>>, program: Seq<u8>) -> Option<
    (Seq<u8>, u8),
>;

/// Relies on `solana_pubkey::Pubkey::try_find_program_address`: the returned
/// address and bump are a pure sha256-based function of the seed list and the
/// program id alone; `None` comes only when a seed limit is exceeded or no
/// collision byte works.
#[verifier::external_body]
fn try_find_pda(seeds: &Vec<Vec<u8>>, program: &[u8; 32]) -> (r: Option<([u8; 32], u8)>)
    ensures
        match r {
            Some(p) => pda_derivation(seeds@.map_values(|v: Vec<u8>| v@), program@) == Some(
                (p.0@, p.1),
            ),
            None => pda_derivation(seeds@.map_values(|v: Vec<u8>| v@), program@) is None,
        },
{
    let seed_refs: Vec<&[u8]> = seeds.iter().map(|s: &Vec<u8>| s.as_slice()).collect();
    let program_key = solana_pubkey::Pubkey::new_from_array(*program);
    solana_pubkey::Pubkey::try_find_program_address(&seed_refs, &program_key)
        .map(|(address, bump)| (address.to_bytes(), bump))
}

/// Copy a byte slice into an owned vector.
fn bytes_of(src: &[u8]) -> (r: Vec<u8>)
    ensures
        r@ == src@,
{
    let n = src.len();
    let mut v: Vec<u8> = Vec::new();
    let mut i: usize = 0;
    while i < n
        invariant
            n == src@.len(),
            i <= n,
            v@.len() == i,
            forall|j: int| 0 <= j < i ==> v@[j] == src@[j],
        decreases n - i,
    {
        v.push(src[i]);
        i += 1;
    }
    proof {
        assert(v@ =~= src@);
    }
    v
}

/// The seed list `[tag, owner]` at spec level.
pub open spec fn tag_owner_seeds(tag: Seq<u8>, owner: Seq<u8>) -> Seq<Seq<u8>> {
    seq![tag, owner]
}

/// The seed list `[tag, maker, id-bytes]` at spec level.
pub open spec fn tag_owner_id_seeds(tag: Seq<u8>, owner: Seq<u8>, id: u64) -> Seq<Seq<u8>> {
    seq![tag, owner, spec_u64_to_le_bytes(id)]
}

/// Derive the slot address for a domain tag and an owner under this program.
pub fn derive_pda1(bstr: &[u8], owner: &[u8; 32]) -> (r: Result<([u8; 32], u8), MyError>)
    ensures
        match r {
            Ok(p) => pda_derivation(tag_owner_seeds(bstr@, owner@), PROGRAM_ID@) == Some(
                (p.0@, p.1),
            ),
            Err(e) => e == MyError::InvalidSeeds && pda_derivation(
                tag_owner_seeds(bstr@, owner@),
                PROGRAM_ID@,
            ) is None,
        },
{
    let mut seeds: Vec<Vec<u8>> = Vec::new();
    seeds.push(bytes_of(bstr));
    seeds.push(bytes_of(owner.as_slice()));
    proof {
        assert(seeds@.map_values(|v: Vec<u8>| v@) =~= tag_owner_seeds(bstr@, owner@));
    }
    match try_find_pda(&seeds, &PROGRAM_ID) {
        Some(p) => Ok(p),
        None => Err(MyError::InvalidSeeds),
    }
}

/// Derive the escrow record address for a maker and a swap id.
pub fn derive_escrow_address(maker: &[u8; 32], id: u64) -> (r: Result<([u8; 32], u8), MyError>)
    ensures
        match r {
            Ok(p) => pda_derivation(
                tag_owner_id_seeds(ESCROW_SEED@, maker@, id),
                PROGRAM_ID@,
            ) == Some((p.0@, p.1)),
            Err(e) => e == MyError::InvalidSeeds && pda_derivation(
                tag_owner_id_seeds(ESCROW_SEED@, maker@, id),
                PROGRAM_ID@,
            ) is None,
        },
{
    let mut seeds: Vec<Vec<u8>> = Vec::new();
    seeds.push(bytes_of(ESCROW_SEED.as_slice()));
    seeds.push(bytes_of(maker.as_slice()));
    seeds.push(u64_to_le_bytes(id));
    proof {
        assert(seeds@.map_values(|v: Vec<u8>| v@) =~= tag_owner_id_seeds(
            ESCROW_SEED@,
            maker@,
            id,
        ));
    }
    match try_find_pda(&seeds, &PROGRAM_ID) {
        Some(p) => Ok(p),
        None => Err(MyError::InvalidSeeds),
    }
}

/// The seed list for an associated token account at spec level.
pub open spec fn ata_seeds(wallet: Seq<u8>, token_program: Seq<u8>, mint: Seq<u8>) -> Seq<
    Seq<u8>,
> {
    seq![wallet, token_program, mint]
}

/// Derive the canonical token-holding account address for a wallet and mint.
pub fn derive_ata_address(wallet: &[u8; 32], token_program: &[u8; 32], mint: &[u8; 32]) -> (r:
    Result<([u8; 32], u8), MyError>)
    ensures
        match r {
            Ok(p) => pda_derivation(
                ata_seeds(wallet@, token_program@, mint@),
                ATA_PROGRAM_ID@,
            ) == Some((p.0@, p.1)),
            Err(e) => e == MyError::InvalidSeeds && pda_derivation(
                ata_seeds(wallet@, token_program@, mint@),
                ATA_PROGRAM_ID@,
            ) is None,
        },
{
    let mut seeds: Vec<Vec<u8>> = Vec::new();
    seeds.push(bytes_of(wallet.as_slice()));
    seeds.push(bytes_of(token_program.as_slice()));
    seeds.push(bytes_of(mint.as_slice()));
    proof {
        assert(seeds@.map_values(|v: Vec<u8>| v@) =~= ata_seeds(wallet@, token_program@, mint@));
    }
    match try_find_pda(&seeds, &ATA_PROGRAM_ID) {
        Some(p) => Ok(p),
        None => Err(MyError::InvalidSeeds),
    }
}

/// Re-deriving from the same seeds and program identity yields an identical
/// (address, collision-byte) answer: the derivation is deterministic.
pub proof fn lemma_derivation_deterministic(
    seeds: Seq<Seq<u8>>,
    program: Seq<u8>,
    r1: Option<(Seq<u8>, u8)>,
    r2: Option<(Seq<u8>, u8)>,
)
    requires
        r1 == pda_derivation(seeds, program),
        r2 == pda_derivation(seeds, program),
    ensures
        r1 == r2,
{
}

} // verus!
