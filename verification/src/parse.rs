//! Payload parsing: fixed-width little-endian integers, byte arrays, and
//! single-byte booleans, plus the length checks applied to every payload.

use crate::errors::MyError;
use vstd::bytes::{spec_u32_from_le_bytes, spec_u64_from_le_bytes, u32_from_le_bytes, u64_from_le_bytes};
use vstd::prelude::*;

verus! {

/// Reject a payload shorter than `min` bytes.
pub fn min_data_len(data: &[u8], min: usize) -> (r: Result<(), MyError>)
    ensures
        r == if data@.len() < min {
            Err::<(), MyError>(MyError::InputDataLen)
        } else {
            Ok::<(), MyError>(())
        },
{
    if data.len() < min {
        return Err(MyError::InputDataLen);
    }
    Ok(())
}

/// Reject a payload longer than `max` bytes.
pub fn max_data_len(data: &[u8], max: usize) -> (r: Result<(), MyError>)
    ensures
        r == if data@.len() > max {
            Err::<(), MyError>(MyError::InputDataOverMax)
        } else {
            Ok::<(), MyError>(())
        },
{
    if data.len() > max {
        return Err(MyError::InputDataOverMax);
    }
    Ok(())
}

/// Reject a payload whose length is not exactly `expected` bytes.
pub fn check_data_len(data: &[u8], expected: usize) -> (r: Result<(), MyError>)
    ensures
        r == if data@.len() != expected {
            Err::<(), MyError>(MyError::InputDataLen)
        } else {
            Ok::<(), MyError>(())
        },
{
    if data.len() != expected {
        return Err(MyError::InputDataLen);
    }
    Ok(())
}

/// Reject a string whose character count lies outside `[min_len, max_len]`:
/// too short fails with the under-minimum reason, too long with the
/// over-maximum reason.
pub fn check_str_len(s: &str, min_len: usize, max_len: usize) -> (r: Result<(), MyError>)
    ensures
        r == if s@.len() < min_len {
            Err::<(), MyError>(MyError::StrUnderMin)
        } else if s@.len() > max_len {
            Err::<(), MyError>(MyError::StrOverMax)
        } else {
            Ok::<(), MyError>(())
        },
{
    let n = s.unicode_len();
    if n < min_len {
        return Err(MyError::StrUnderMin);
    }
    if n > max_len {
        return Err(MyError::StrOverMax);
    }
    Ok(())
}

/// Reject a decimals value above `max`.
pub fn check_decimals_max(decimals: u8, max: u8) -> (r: Result<(), MyError>)
    ensures
        r == if decimals > max {
            Err::<(), MyError>(MyError::DecimalsValue)
        } else {
            Ok::<(), MyError>(())
        },
{
    if decimals > max {
        return Err(MyError::DecimalsValue);
    }
    Ok(())
}

/// Reject a zero amount.
pub fn none_zero_u64(amt: u64) -> (r: Result<(), MyError>)
    ensures
        r == if amt == 0 {
            Err::<(), MyError>(MyError::ZeroAsInput)
        } else {
            Ok::<(), MyError>(())
        },
{
    if amt == 0 {
        return Err(MyError::ZeroAsInput);
    }
    Ok(())
}

/// What `parse_u64` answers on a payload.
pub open spec fn spec_parse_u64(data: Seq<u8>) -> Result<u64, MyError> {
    if data.len() != 8 {
        Err(MyError::U64ByteSizeInvalid)
    } else if spec_u64_from_le_bytes(data) == 0 {
        Err(MyError::ZeroAsInput)
    } else {
        Ok(spec_u64_from_le_bytes(data))
    }
}

/// Parse a nonzero u64 from exactly eight little-endian bytes.
pub fn parse_u64(data: &[u8]) -> (r: Result<u64, MyError>)
    ensures
        r == spec_parse_u64(data@),
{
    if data.len() != 8 {
        return Err(MyError::U64ByteSizeInvalid);
    }
    proof {
        assert(data@.subrange(0, 8) =~= data@);
    }
    let amt = read_u64_le(data, 0);
    if amt == 0 {
        return Err(MyError::ZeroAsInput);
    }
    Ok(amt)
}

/// What `parse_u32` answers on a payload.
pub open spec fn spec_parse_u32(data: Seq<u8>) -> Result<u32, MyError> {
    if data.len() != 4 {
        Err(MyError::U32ByteSizeInvalid)
    } else if spec_u32_from_le_bytes(data) == 0 {
        Err(MyError::ZeroAsInput)
    } else {
        Ok(spec_u32_from_le_bytes(data))
    }
}

/// Parse a nonzero u32 from exactly four little-endian bytes.
pub fn parse_u32(data: &[u8]) -> (r: Result<u32, MyError>)
    ensures
        r == spec_parse_u32(data@),
{
    if data.len() != 4 {
        return Err(MyError::U32ByteSizeInvalid);
    }
    proof {
        assert(data@.subrange(0, 4) =~= data@);
    }
    let amt = read_u32_le(data, 0);
    if amt == 0 {
        return Err(MyError::ZeroAsInput);
    }
    Ok(amt)
}

/// Copy exactly 32 bytes into an owned array; any other length is refused.
pub fn u8_slice_to_array(str_u8: &[u8]) -> (r: Result<[u8; 32], MyError>)
    ensures
        str_u8@.len() == 32 ==> (r matches Ok(a) && a@ == str_u8@),
        str_u8@.len() != 32 ==> r == Err::<[u8; 32], MyError>(MyError::InputStrSliceOverMax),
{
    if str_u8.len() != 32 {
        return Err(MyError::InputStrSliceOverMax);
    }
    let mut a = [0u8; 32];
    let mut i: usize = 0;
    while i < 32
        invariant
            str_u8@.len() == 32,
            i <= 32,
            forall|j: int| 0 <= j < i ==> a@[j] == str_u8@[j],
        decreases 32 - i,
    {
        a[i] = str_u8[i];
        i += 1;
    }
    proof {
        assert(a@ =~= str_u8@);
    }
    Ok(a)
}

/// Copy exactly 32 bytes into an owned array (payload-label form).
pub fn to32bytes(str_u8: &[u8]) -> (r: Result<[u8; 32], MyError>)
    ensures
        str_u8@.len() == 32 ==> (r matches Ok(a) && a@ == str_u8@),
        str_u8@.len() != 32 ==> r == Err::<[u8; 32], MyError>(MyError::InputStrSliceOverMax),
{
    u8_slice_to_array(str_u8)
}

/// Decode a single-byte boolean: only 0 and 1 are accepted.
pub fn u8_to_bool(v: u8) -> (r: Result<bool, MyError>)
    ensures
        r == match v {
            0u8 => Ok::<bool, MyError>(false),
            1u8 => Ok::<bool, MyError>(true),
            _ => Err::<bool, MyError>(MyError::InputU8InvalidForBool),
        },
{
    match v {
        0 => Ok(false),
        1 => Ok(true),
        _ => Err(MyError::InputU8InvalidForBool),
    }
}

/// Read a little-endian u64 at byte offset `off`.
pub fn read_u64_le(data: &[u8], off: usize) -> (r: u64)
    requires
        off + 8 <= data@.len(),
    ensures
        r == spec_u64_from_le_bytes(data@.subrange(off as int, off as int + 8)),
{
    let n = data.len();
    let mut buf: Vec<u8> = Vec::new();
    let mut i: usize = 0;
    while i < 8
        invariant
            n == data@.len(),
            off + 8 <= data@.len(),
            i <= 8,
            buf@.len() == i,
            forall|j: int| 0 <= j < i ==> buf@[j] == data@[off + j],
        decreases 8 - i,
    {
        buf.push(data[off + i]);
        i += 1;
    }
    proof {
        assert(buf@ =~= data@.subrange(off as int, off as int + 8));
    }
    u64_from_le_bytes(buf.as_slice())
}

/// Read a little-endian u32 at byte offset `off`.
pub fn read_u32_le(data: &[u8], off: usize) -> (r: u32)
    requires
        off + 4 <= data@.len(),
    ensures
        r == spec_u32_from_le_bytes(data@.subrange(off as int, off as int + 4)),
{
    let n = data.len();
    let mut buf: Vec<u8> = Vec::new();
    let mut i: usize = 0;
    while i < 4
        invariant
            n == data@.len(),
            off + 4 <= data@.len(),
            i <= 4,
            buf@.len() == i,
            forall|j: int| 0 <= j < i ==> buf@[j] == data@[off + j],
        decreases 4 - i,
    {
        buf.push(data[off + i]);
        i += 1;
    }
    proof {
        assert(buf@ =~= data@.subrange(off as int, off as int + 4));
    }
    u32_from_le_bytes(buf.as_slice())
}

/// Copy the 32 bytes at offset `off` into an owned array.
pub fn read_addr(data: &[u8], off: usize) -> (r: [u8; 32])
    requires
        off + 32 <= data@.len(),
    ensures
        r@ == data@.subrange(off as int, off as int + 32),
{
    let n = data.len();
    let mut a = [0u8; 32];
    let mut i: usize = 0;
    while i < 32
        invariant
            n == data@.len(),
            off + 32 <= data@.len(),
            i <= 32,
            forall|j: int| 0 <= j < i ==> a@[j] == data@[off + j],
        decreases 32 - i,
    {
        a[i] = data[off + i];
        i += 1;
    }
    proof {
        assert(a@ =~= data@.subrange(off as int, off as int + 32));
    }
    a
}

} // verus!
