//! Reinterpreting signed integers as unsigned ones of the same width.
use vstd::prelude::*;

verus! {

/// The unsigned number with the same 64 bits as `v` (two's complement).
pub open spec fn u64_of_i64(v: i64) -> int {
    if v >= 0 {
        v as int
    } else {
        v + 0x1_0000_0000_0000_0000
    }
}

/// The unsigned number with the same 32 bits as `v` (two's complement).
pub open spec fn u32_of_i32(v: i32) -> int {
    if v >= 0 {
        v as int
    } else {
        v + 0x1_0000_0000
    }
}

/// `v` with its bits read as an unsigned number.
pub fn cast_unsigned_i64(v: i64) -> (r: u64)
    ensures
        r == u64_of_i64(v),
{
    if v >= 0 {
        v as u64
    } else {
        let a: i64 = (v + 1) + i64::MAX;
        a as u64 + 0x8000_0000_0000_0000u64
    }
}

/// `v` with its bits read as an unsigned number.
pub fn cast_unsigned_i32(v: i32) -> (r: u32)
    ensures
        r == u32_of_i32(v),
{
    if v >= 0 {
        v as u32
    } else {
        let a: i32 = (v + 1) + i32::MAX;
        a as u32 + 0x8000_0000u32
    }
}

} // verus!
