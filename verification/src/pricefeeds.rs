//! Read-only price-feed records published by the external price-feed
//! program: validated by owner address and fixed record length before any
//! field is trusted.  The raw price is handed back; scaling by the exponent
//! is left to the caller.

use crate::account::Account;
use crate::errors::MyError;
use crate::guards::{check_mint0a, check_pda, check_signer, spec_check_mint0a, spec_check_pda, writable};
use crate::parse::{check_data_len, read_addr, read_u64_le, spec_parse_u32, spec_parse_u64};
use crate::escrow::{guard_err, res_err};
use vstd::bytes::{spec_u32_from_le_bytes, spec_u64_from_le_bytes};
use vstd::prelude::*;

verus! {

/// The price-feed program's identity: only records it owns are trusted.
pub const PYTH_OWNER_ID: [u8; 32] = [
    12, 183, 250, 187, 82, 247, 166, 72, 187, 91, 49, 125, 154, 1, 139, 144, 87, 203, 2, 71, 116,
    250, 254, 1, 230, 196, 223, 152, 204, 56, 88, 129,
];

/// How old a price may be before it is refused, in seconds.
pub const MAX_PRICE_AGE: u64 = 60;

/// One published price observation.
pub struct PriceFeedMessage {
    pub feed_id: [u8; 32],
    pub price: i64,
    pub conf: u64,
    pub exponent: i32,
    pub publish_time: i64,
    pub prev_publish_time: i64,
    pub ema_price: i64,
    pub ema_conf: u64,
}

impl PriceFeedMessage {
    /// The feed this observation belongs to.
    pub fn feed_id(&self) -> (r: &[u8; 32])
        ensures
            r == self.feed_id,
    {
        &self.feed_id
    }

    /// The observed price; the actual value is `price * 10^exponent`.
    pub fn price(&self) -> (r: i64)
        ensures
            r == self.price,
    {
        self.price
    }

    /// The confidence interval around the price.
    pub fn conf(&self) -> (r: u64)
        ensures
            r == self.conf,
    {
        self.conf
    }

    /// The decimal exponent of the price.
    pub fn exponent(&self) -> (r: i32)
        ensures
            r == self.exponent,
    {
        self.exponent
    }

    /// When this observation was published, in seconds.
    pub fn publish_time(&self) -> (r: i64)
        ensures
            r == self.publish_time,
    {
        self.publish_time
    }

    /// When the previous observation was published.
    pub fn prev_publish_time(&self) -> (r: i64)
        ensures
            r == self.prev_publish_time,
    {
        self.prev_publish_time
    }

    /// The exponentially weighted average price.
    pub fn ema_price(&self) -> (r: i64)
        ensures
            r == self.ema_price,
    {
        self.ema_price
    }

    /// The confidence interval around the average price.
    pub fn ema_conf(&self) -> (r: u64)
        ensures
            r == self.ema_conf,
    {
        self.ema_conf
    }
}

/// A price-update record as the price-feed program serializes it.
pub struct PriceUpdateV2 {
    pub write_authority: [u8; 32],
    pub verification_level: u8,
    pub price_message: PriceFeedMessage,
    pub posted_slot: u64,
}

/// Byte length of a serialized price-update record.
pub const PRICE_UPDATE_LEN: usize = 133;

/// The record kind tag that opens every price-update record.
pub open spec fn spec_price_update_tag(d: Seq<u8>) -> Seq<u8> {
    d.subrange(0, 8)
}

/// The fixed record kind tag of price updates.
pub open spec fn spec_expected_price_tag() -> Seq<u8> {
    seq![0x22u8, 0xf1u8, 0x23u8, 0x63u8, 0x9du8, 0x7eu8, 0xf4u8, 0xcdu8]
}

/// The observed price encoded in a price-update record.
pub open spec fn spec_price_of_bytes(d: Seq<u8>) -> i64 {
    spec_u64_from_le_bytes(d.subrange(73, 81)) as i64
}

/// The publish time encoded in a price-update record.
pub open spec fn spec_publish_time_of_bytes(d: Seq<u8>) -> i64 {
    spec_u64_from_le_bytes(d.subrange(93, 101)) as i64
}

/// The feed id encoded in a price-update record.
pub open spec fn spec_feed_id_of_bytes(d: Seq<u8>) -> Seq<u8> {
    d.subrange(41, 73)
}

/// Whether the record's signatures were fully verified.
pub open spec fn spec_fully_verified(d: Seq<u8>) -> bool {
    d[40] == 1u8
}

/// What `from_account_data` answers on a payload.
pub open spec fn spec_price_update_err(d: Seq<u8>) -> Option<MyError> {
    if d.len() < PRICE_UPDATE_LEN {
        Some(MyError::PythPriceUpdateV2DataLen)
    } else if spec_price_update_tag(d) != spec_expected_price_tag() {
        Some(MyError::PythPriceUpdateV2Discriminator)
    } else {
        None
    }
}

impl PriceUpdateV2 {
    /// Decode a record, checking its length and its record kind tag.
    pub fn from_account_data(data: &Vec<u8>) -> (r: Result<PriceUpdateV2, MyError>)
        ensures
            match r {
                Ok(u) => {
                    &&& spec_price_update_err(data@) is None
                    &&& u.write_authority@ == data@.subrange(8, 40)
                    &&& u.verification_level == data@[40]
                    &&& u.price_message.feed_id@ == spec_feed_id_of_bytes(data@)
                    &&& u.price_message.price == spec_price_of_bytes(data@)
                    &&& u.price_message.publish_time == spec_publish_time_of_bytes(data@)
                },
                Err(e) => spec_price_update_err(data@) == Some(e),
            },
    {
        if data.len() < PRICE_UPDATE_LEN {
            return Err(MyError::PythPriceUpdateV2DataLen);
        }
        let tag = [0x22u8, 0xf1, 0x23, 0x63, 0x9d, 0x7e, 0xf4, 0xcd];
        let mut i: usize = 0;
        while i < 8
            invariant
                data@.len() >= PRICE_UPDATE_LEN,
                i <= 8,
                tag@ == spec_expected_price_tag(),
                forall|j: int| 0 <= j < i ==> data@[j] == tag@[j],
            decreases 8 - i,
        {
            if data[i] != tag[i] {
                proof {
                    assert(spec_price_update_tag(data@)[i as int]
                        != spec_expected_price_tag()[i as int]);
                }
                return Err(MyError::PythPriceUpdateV2Discriminator);
            }
            i += 1;
        }
        proof {
            assert(spec_price_update_tag(data@) =~= spec_expected_price_tag());
        }
        let d = data.as_slice();
        Ok(PriceUpdateV2 {
            write_authority: read_addr(d, 8),
            verification_level: data[40],
            price_message: PriceFeedMessage {
                feed_id: read_addr(d, 41),
                price: read_u64_le(d, 73) as i64,
                conf: read_u64_le(d, 81),
                exponent: crate::parse::read_u32_le(d, 89) as i32,
                publish_time: read_u64_le(d, 93) as i64,
                prev_publish_time: read_u64_le(d, 101) as i64,
                ema_price: read_u64_le(d, 109) as i64,
                ema_conf: read_u64_le(d, 117),
            },
            posted_slot: read_u64_le(d, 125),
        })
    }

    /// Who may write this record.
    pub fn write_authority(&self) -> (r: &[u8; 32])
        ensures
            r == self.write_authority,
    {
        &self.write_authority
    }

    /// `true` when all guardian signatures have been verified.
    pub fn is_fully_verified(&self) -> (r: bool)
        ensures
            r == (self.verification_level == 1),
    {
        self.verification_level == 1
    }

    /// The price observation this record carries.
    pub fn price_message(&self) -> (r: &PriceFeedMessage)
        ensures
            r == self.price_message,
    {
        &self.price_message
    }

    /// The slot the record was posted in.
    pub fn posted_slot(&self) -> (r: u64)
        ensures
            r == self.posted_slot,
    {
        self.posted_slot
    }

    /// The raw price, provided it is positive and no older than
    /// `maximum_age` seconds before `now`; scaling by the exponent is the
    /// caller's.
    pub fn get_price_no_older_than(&self, maximum_age: u64, feed_id: &[u8; 32], now: i64) -> (r:
        Result<i64, MyError>)
        requires
            maximum_age <= i64::MAX,
        ensures
            match r {
                Ok(p) => {
                    &&& spec_get_price_err(*self, maximum_age, feed_id@, now) is None
                    &&& p == self.price_message.price
                    &&& p > 0
                },
                Err(e) => spec_get_price_err(*self, maximum_age, feed_id@, now) == Some(e),
            },
    {
        if !crate::addr::addr_eq(&self.price_message.feed_id, feed_id) {
            return Err(MyError::PythMismatchedFeedId);
        }
        if self.price_message.price <= 0 {
            return Err(MyError::OraclePriceInvalid);
        }
        let age = maximum_age as i64;
        let max_time: i64 = if self.price_message.publish_time > i64::MAX - age {
            i64::MAX
        } else {
            self.price_message.publish_time + age
        };
        if max_time <= now {
            return Err(MyError::OraclePriceTooOld);
        }
        Ok(self.price_message.price)
    }
}

/// The first failing check of the price read, in order: the observation must
/// belong to the expected feed, carry a positive price, and be no older than
/// the allowed age.
pub open spec fn spec_get_price_err(
    u: PriceUpdateV2,
    maximum_age: u64,
    feed_id: Seq<u8>,
    now: i64,
) -> Option<MyError> {
    if u.price_message.feed_id@ != feed_id {
        Some(MyError::PythMismatchedFeedId)
    } else if u.price_message.price <= 0 {
        Some(MyError::OraclePriceInvalid)
    } else if spec_saturating_add_i64(u.price_message.publish_time, maximum_age as i64) <= now {
        Some(MyError::OraclePriceTooOld)
    } else {
        None
    }
}

/// Saturating signed addition, as the staleness check computes it.
pub open spec fn spec_saturating_add_i64(a: i64, b: i64) -> i64 {
    if a + b > i64::MAX {
        i64::MAX
    } else if a + b < i64::MIN {
        i64::MIN
    } else {
        (a + b) as i64
    }
}

/// The first failing check of the end-to-end price-feed read, in order: the
/// record must be owned by the price-feed program, decode as a price update,
/// be fully verified, belong to the expected feed, and be positive and fresh.
pub open spec fn spec_pyth_network_err(pda: Account, feed_id: Seq<u8>, now: i64) -> Option<
    MyError,
> {
    if pda.owner@ != PYTH_OWNER_ID@ {
        Some(MyError::PythPDA)
    } else if spec_price_update_err(pda.data@) is Some {
        spec_price_update_err(pda.data@)
    } else if !spec_fully_verified(pda.data@) {
        Some(MyError::PythPriceVerification)
    } else if spec_feed_id_of_bytes(pda.data@) != feed_id {
        Some(MyError::PythMismatchedFeedId)
    } else if spec_price_of_bytes(pda.data@) <= 0 {
        Some(MyError::OraclePriceInvalid)
    } else if spec_saturating_add_i64(
        spec_publish_time_of_bytes(pda.data@),
        MAX_PRICE_AGE as i64,
    ) <= now {
        Some(MyError::OraclePriceTooOld)
    } else {
        None
    }
}

/// Validate a price-feed record end to end and hand back the raw price: the
/// record must be owned by the price-feed program, decode as a price update,
/// be fully verified, belong to the expected feed, and be fresh.
pub fn pyth_network(pda: &Account, feed_id: &[u8; 32], now: i64) -> (r: Result<i64, MyError>)
    ensures
        match r {
            Ok(p) => {
                &&& spec_pyth_network_err(*pda, feed_id@, now) is None
                &&& p == spec_price_of_bytes(pda.data@)
                &&& p > 0
            },
            Err(e) => spec_pyth_network_err(*pda, feed_id@, now) == Some(e),
        },
{
    if !crate::addr::addr_eq(&pda.owner, &PYTH_OWNER_ID) {
        return Err(MyError::PythPDA);
    }
    let update = PriceUpdateV2::from_account_data(&pda.data)?;
    if !update.is_fully_verified() {
        return Err(MyError::PythPriceVerification);
    }
    update.get_price_no_older_than(MAX_PRICE_AGE, feed_id, now)
}

/// Dispatch a price read to the oracle vendor's reader; only the price-feed
/// vendor codes are defined.
pub fn read_oracle_pda(oracle_vendor: u8, pda: &Account, feed_id: &[u8; 32], now: i64) -> (r:
    Result<i64, MyError>)
    ensures
        oracle_vendor > 1 ==> r == Err::<i64, MyError>(MyError::OracleNum),
        oracle_vendor <= 1 ==> match r {
            Ok(p) => {
                &&& spec_pyth_network_err(*pda, feed_id@, now) is None
                &&& p == spec_price_of_bytes(pda.data@)
                &&& p > 0
            },
            Err(e) => spec_pyth_network_err(*pda, feed_id@, now) == Some(e),
        },
{
    match oracle_vendor {
        0 | 1 => pyth_network(pda, feed_id, now),
        _ => Err(MyError::OracleNum),
    }
}

/// The OraclesRead instruction: a function-selector byte picks the oracle
/// read to perform.
pub struct OraclesRead {
    pub signer: Account,
    pub config_pda: Account,
    pub oracle_program: [u8; 32],
    pub func_selector: u8,
    pub num_u32: u32,
    pub num_u64: u64,
}

/// The first failing check of OraclesRead's validation, in order.
pub open spec fn spec_oracles_try_err(data: Seq<u8>, a: Seq<Account>) -> Option<MyError> {
    if data.len() != 16 {
        Some(MyError::InputDataLen)
    } else if a.len() != 5 {
        Some(MyError::NotEnoughAccountKeys)
    } else if !a[0].is_signer {
        Some(MyError::NotSigner)
    } else if !a[1].is_writable {
        Some(MyError::NotWritable)
    } else if spec_check_pda(a[1]) is Err {
        guard_err(spec_check_pda(a[1]))
    } else if spec_check_mint0a(a[3], a[4]) is Err {
        guard_err(spec_check_mint0a(a[3], a[4]))
    } else if spec_parse_u32(data.subrange(4, 8)) is Err {
        res_err(spec_parse_u32(data.subrange(4, 8)))
    } else {
        res_err(spec_parse_u64(data.subrange(8, 16)))
    }
}

impl OraclesRead {
    /// Match the exact account arity, run the guards, and parse the selector
    /// and its numeric arguments.
    pub fn try_from(data: &[u8], accounts: Vec<Account>) -> (r: Result<OraclesRead, MyError>)
        ensures
            match r {
                Ok(t) => {
                    &&& spec_oracles_try_err(data@, accounts@) is None
                    &&& t.signer == accounts@[0]
                    &&& t.config_pda == accounts@[1]
                    &&& t.oracle_program@ == accounts@[2].key@
                    &&& t.func_selector == data@[0]
                    &&& Ok::<u32, MyError>(t.num_u32) == spec_parse_u32(data@.subrange(4, 8))
                    &&& Ok::<u64, MyError>(t.num_u64) == spec_parse_u64(data@.subrange(8, 16))
                },
                Err(e) => spec_oracles_try_err(data@, accounts@) == Some(e),
            },
    {
        check_data_len(data, 16)?;
        let mut v = accounts;
        if v.len() != 5 {
            return Err(MyError::NotEnoughAccountKeys);
        }
        let token_program = v.pop().unwrap();
        let token_mint = v.pop().unwrap();
        let oracle_program = v.pop().unwrap();
        let config_pda = v.pop().unwrap();
        let signer = v.pop().unwrap();
        check_signer(&signer)?;
        writable(&config_pda)?;
        check_pda(&config_pda)?;
        check_mint0a(&token_mint, &token_program)?;
        let func_selector = data[0];
        let num_u32 = match crate::parse::read_u32_le(data, 4) {
            0 => { return Err(MyError::ZeroAsInput) },
            x => x,
        };
        let num_u64 = match crate::parse::read_u64_le(data, 8) {
            0 => { return Err(MyError::ZeroAsInput) },
            x => x,
        };
        Ok(OraclesRead {
            signer,
            config_pda,
            oracle_program: oracle_program.key,
            func_selector,
            num_u32,
            num_u64,
        })
    }

    /// Dispatch on the function-selector byte; only the price-feed read is
    /// defined.
    pub fn process(&self) -> (r: Result<(), MyError>)
        ensures
            r == if self.func_selector == 0 {
                Ok::<(), MyError>(())
            } else {
                Err::<(), MyError>(MyError::FunctionSelector)
            },
    {
        match self.func_selector {
            0 => Ok(()),
            _ => Err(MyError::FunctionSelector),
        }
    }
}

} // verus!
