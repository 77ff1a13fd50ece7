//! On-chain settlement library: account guards, derived-address checks,
//! config/vault lifecycle, and the token-swap escrow state machine.
//!
//! The library works on plain models of ledger accounts; the thin program
//! adapter that talks to the ledger runtime lives outside the library.

pub mod addr;
pub mod account;
pub mod config;
pub mod dispatch;
pub mod errors;
pub mod escrow;
pub mod guards;
pub mod lifecycle;
pub mod parse;
pub mod pricefeeds;
pub mod state;
pub mod tokens;
pub mod vault;

use vstd::prelude::*;

verus! {

/// This program's own identity: every record slot it owns must declare this
/// address as its owner program.
pub const PROGRAM_ID: [u8; 32] = [
    92, 143, 246, 202, 41, 241, 196, 219, 253, 241, 134, 236, 245, 31, 153, 51, 42, 90, 97, 32, 7,
    212, 84, 199, 229, 137, 118, 60, 30, 198, 176, 35,
];

} // verus!
