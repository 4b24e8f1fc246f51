//! Conversions among the supported scalar types: every ordered pair of
//! integer types, and each integer type paired with `bool` in both
//! directions. Each pair is defined directly, never derived transitively.
//!
//! Integer-to-integer conversion follows the native cast: widening extends
//! the value (sign-extending from a signed source), narrowing truncates to
//! the low-order bits of the target, reinterpreted per the target's
//! signedness. Boolean conversion maps zero to `false` and any nonzero value
//! to `true`; `true` maps to one and `false` to zero.

use crate::cast::Cast;
use vstd::prelude::*;

verus! {

impl Cast<i8> for i8 {
    open spec fn cast_spec(self) -> i8 {
        self as i8
    }

    fn cast(self) -> (r: i8) {
        self as i8
    }
}

impl Cast<i16> for i8 {
    open spec fn cast_spec(self) -> i16 {
        self as i16
    }

    fn cast(self) -> (r: i16) {
        self as i16
    }
}

impl Cast<i32> for i8 {
    open spec fn cast_spec(self) -> i32 {
        self as i32
    }

    fn cast(self) -> (r: i32) {
        self as i32
    }
}

impl Cast<i64> for i8 {
    open spec fn cast_spec(self) -> i64 {
        self as i64
    }

    fn cast(self) -> (r: i64) {
        self as i64
    }
}

impl Cast<i128> for i8 {
    open spec fn cast_spec(self) -> i128 {
        self as i128
    }

    fn cast(self) -> (r: i128) {
        self as i128
    }
}

impl Cast<isize> for i8 {
    open spec fn cast_spec(self) -> isize {
        self as isize
    }

    fn cast(self) -> (r: isize) {
        self as isize
    }
}

impl Cast<u8> for i8 {
    open spec fn cast_spec(self) -> u8 {
        self as u8
    }

    fn cast(self) -> (r: u8) {
        #[verifier::truncate] (self as u8)
    }
}

impl Cast<u16> for i8 {
    open spec fn cast_spec(self) -> u16 {
        self as u16
    }

    fn cast(self) -> (r: u16) {
        #[verifier::truncate] (self as u16)
    }
}

impl Cast<u32> for i8 {
    open spec fn cast_spec(self) -> u32 {
        self as u32
    }

    fn cast(self) -> (r: u32) {
        #[verifier::truncate] (self as u32)
    }
}

impl Cast<u64> for i8 {
    open spec fn cast_spec(self) -> u64 {
        self as u64
    }

    fn cast(self) -> (r: u64) {
        #[verifier::truncate] (self as u64)
    }
}

impl Cast<u128> for i8 {
    open spec fn cast_spec(self) -> u128 {
        self as u128
    }

    fn cast(self) -> (r: u128) {
        #[verifier::truncate] (self as u128)
    }
}

impl Cast<usize> for i8 {
    open spec fn cast_spec(self) -> usize {
        self as usize
    }

    fn cast(self) -> (r: usize) {
        #[verifier::truncate] (self as usize)
    }
}

impl Cast<i8> for i16 {
    open spec fn cast_spec(self) -> i8 {
        self as i8
    }

    fn cast(self) -> (r: i8) {
        #[verifier::truncate] (self as i8)
    }
}

impl Cast<i16> for i16 {
    open spec fn cast_spec(self) -> i16 {
        self as i16
    }

    fn cast(self) -> (r: i16) {
        self as i16
    }
}

impl Cast<i32> for i16 {
    open spec fn cast_spec(self) -> i32 {
        self as i32
    }

    fn cast(self) -> (r: i32) {
        self as i32
    }
}

impl Cast<i64> for i16 {
    open spec fn cast_spec(self) -> i64 {
        self as i64
    }

    fn cast(self) -> (r: i64) {
        self as i64
    }
}

impl Cast<i128> for i16 {
    open spec fn cast_spec(self) -> i128 {
        self as i128
    }

    fn cast(self) -> (r: i128) {
        self as i128
    }
}

impl Cast<isize> for i16 {
    open spec fn cast_spec(self) -> isize {
        self as isize
    }

    fn cast(self) -> (r: isize) {
        self as isize
    }
}

impl Cast<u8> for i16 {
    open spec fn cast_spec(self) -> u8 {
        self as u8
    }

    fn cast(self) -> (r: u8) {
        #[verifier::truncate] (self as u8)
    }
}

impl Cast<u16> for i16 {
    open spec fn cast_spec(self) -> u16 {
        self as u16
    }

    fn cast(self) -> (r: u16) {
        #[verifier::truncate] (self as u16)
    }
}

impl Cast<u32> for i16 {
    open spec fn cast_spec(self) -> u32 {
        self as u32
    }

    fn cast(self) -> (r: u32) {
        #[verifier::truncate] (self as u32)
    }
}

impl Cast<u64> for i16 {
    open spec fn cast_spec(self) -> u64 {
        self as u64
    }

    fn cast(self) -> (r: u64) {
        #[verifier::truncate] (self as u64)
    }
}

impl Cast<u128> for i16 {
    open spec fn cast_spec(self) -> u128 {
        self as u128
    }

    fn cast(self) -> (r: u128) {
        #[verifier::truncate] (self as u128)
    }
}

impl Cast<usize> for i16 {
    open spec fn cast_spec(self) -> usize {
        self as usize
    }

    fn cast(self) -> (r: usize) {
        #[verifier::truncate] (self as usize)
    }
}

impl Cast<i8> for i32 {
    open spec fn cast_spec(self) -> i8 {
        self as i8
    }

    fn cast(self) -> (r: i8) {
        #[verifier::truncate] (self as i8)
    }
}

impl Cast<i16> for i32 {
    open spec fn cast_spec(self) -> i16 {
        self as i16
    }

    fn cast(self) -> (r: i16) {
        #[verifier::truncate] (self as i16)
    }
}

impl Cast<i32> for i32 {
    open spec fn cast_spec(self) -> i32 {
        self as i32
    }

    fn cast(self) -> (r: i32) {
        self as i32
    }
}

impl Cast<i64> for i32 {
    open spec fn cast_spec(self) -> i64 {
        self as i64
    }

    fn cast(self) -> (r: i64) {
        self as i64
    }
}

impl Cast<i128> for i32 {
    open spec fn cast_spec(self) -> i128 {
        self as i128
    }

    fn cast(self) -> (r: i128) {
        self as i128
    }
}

impl Cast<isize> for i32 {
    open spec fn cast_spec(self) -> isize {
        self as isize
    }

    fn cast(self) -> (r: isize) {
        self as isize
    }
}

impl Cast<u8> for i32 {
    open spec fn cast_spec(self) -> u8 {
        self as u8
    }

    fn cast(self) -> (r: u8) {
        #[verifier::truncate] (self as u8)
    }
}

impl Cast<u16> for i32 {
    open spec fn cast_spec(self) -> u16 {
        self as u16
    }

    fn cast(self) -> (r: u16) {
        #[verifier::truncate] (self as u16)
    }
}

impl Cast<u32> for i32 {
    open spec fn cast_spec(self) -> u32 {
        self as u32
    }

    fn cast(self) -> (r: u32) {
        #[verifier::truncate] (self as u32)
    }
}

impl Cast<u64> for i32 {
    open spec fn cast_spec(self) -> u64 {
        self as u64
    }

    fn cast(self) -> (r: u64) {
        #[verifier::truncate] (self as u64)
    }
}

impl Cast<u128> for i32 {
    open spec fn cast_spec(self) -> u128 {
        self as u128
    }

    fn cast(self) -> (r: u128) {
        #[verifier::truncate] (self as u128)
    }
}

impl Cast<usize> for i32 {
    open spec fn cast_spec(self) -> usize {
        self as usize
    }

    fn cast(self) -> (r: usize) {
        #[verifier::truncate] (self as usize)
    }
}

impl Cast<i8> for i64 {
    open spec fn cast_spec(self) -> i8 {
        self as i8
    }

    fn cast(self) -> (r: i8) {
        #[verifier::truncate] (self as i8)
    }
}

impl Cast<i16> for i64 {
    open spec fn cast_spec(self) -> i16 {
        self as i16
    }

    fn cast(self) -> (r: i16) {
        #[verifier::truncate] (self as i16)
    }
}

impl Cast<i32> for i64 {
    open spec fn cast_spec(self) -> i32 {
        self as i32
    }

    fn cast(self) -> (r: i32) {
        #[verifier::truncate] (self as i32)
    }
}

impl Cast<i64> for i64 {
    open spec fn cast_spec(self) -> i64 {
        self as i64
    }

    fn cast(self) -> (r: i64) {
        self as i64
    }
}

impl Cast<i128> for i64 {
    open spec fn cast_spec(self) -> i128 {
        self as i128
    }

    fn cast(self) -> (r: i128) {
        self as i128
    }
}

impl Cast<isize> for i64 {
    open spec fn cast_spec(self) -> isize {
        self as isize
    }

    fn cast(self) -> (r: isize) {
        #[verifier::truncate] (self as isize)
    }
}

impl Cast<u8> for i64 {
    open spec fn cast_spec(self) -> u8 {
        self as u8
    }

    fn cast(self) -> (r: u8) {
        #[verifier::truncate] (self as u8)
    }
}

impl Cast<u16> for i64 {
    open spec fn cast_spec(self) -> u16 {
        self as u16
    }

    fn cast(self) -> (r: u16) {
        #[verifier::truncate] (self as u16)
    }
}

impl Cast<u32> for i64 {
    open spec fn cast_spec(self) -> u32 {
        self as u32
    }

    fn cast(self) -> (r: u32) {
        #[verifier::truncate] (self as u32)
    }
}

impl Cast<u64> for i64 {
    open spec fn cast_spec(self) -> u64 {
        self as u64
    }

    fn cast(self) -> (r: u64) {
        #[verifier::truncate] (self as u64)
    }
}

impl Cast<u128> for i64 {
    open spec fn cast_spec(self) -> u128 {
        self as u128
    }

    fn cast(self) -> (r: u128) {
        #[verifier::truncate] (self as u128)
    }
}

impl Cast<usize> for i64 {
    open spec fn cast_spec(self) -> usize {
        self as usize
    }

    fn cast(self) -> (r: usize) {
        #[verifier::truncate] (self as usize)
    }
}

impl Cast<i8> for i128 {
    open spec fn cast_spec(self) -> i8 {
        self as i8
    }

    fn cast(self) -> (r: i8) {
        #[verifier::truncate] (self as i8)
    }
}

impl Cast<i16> for i128 {
    open spec fn cast_spec(self) -> i16 {
        self as i16
    }

    fn cast(self) -> (r: i16) {
        #[verifier::truncate] (self as i16)
    }
}

impl Cast<i32> for i128 {
    open spec fn cast_spec(self) -> i32 {
        self as i32
    }

    fn cast(self) -> (r: i32) {
        #[verifier::truncate] (self as i32)
    }
}

impl Cast<i64> for i128 {
    open spec fn cast_spec(self) -> i64 {
        self as i64
    }

    fn cast(self) -> (r: i64) {
        #[verifier::truncate] (self as i64)
    }
}

impl Cast<i128> for i128 {
    open spec fn cast_spec(self) -> i128 {
        self as i128
    }

    fn cast(self) -> (r: i128) {
        self as i128
    }
}

impl Cast<isize> for i128 {
    open spec fn cast_spec(self) -> isize {
        self as isize
    }

    fn cast(self) -> (r: isize) {
        #[verifier::truncate] (self as isize)
    }
}

impl Cast<u8> for i128 {
    open spec fn cast_spec(self) -> u8 {
        self as u8
    }

    fn cast(self) -> (r: u8) {
        #[verifier::truncate] (self as u8)
    }
}

impl Cast<u16> for i128 {
    open spec fn cast_spec(self) -> u16 {
        self as u16
    }

    fn cast(self) -> (r: u16) {
        #[verifier::truncate] (self as u16)
    }
}

impl Cast<u32> for i128 {
    open spec fn cast_spec(self) -> u32 {
        self as u32
    }

    fn cast(self) -> (r: u32) {
        #[verifier::truncate] (self as u32)
    }
}

impl Cast<u64> for i128 {
    open spec fn cast_spec(self) -> u64 {
        self as u64
    }

    fn cast(self) -> (r: u64) {
        #[verifier::truncate] (self as u64)
    }
}

impl Cast<u128> for i128 {
    open spec fn cast_spec(self) -> u128 {
        self as u128
    }

    fn cast(self) -> (r: u128) {
        #[verifier::truncate] (self as u128)
    }
}

impl Cast<usize> for i128 {
    open spec fn cast_spec(self) -> usize {
        self as usize
    }

    fn cast(self) -> (r: usize) {
        #[verifier::truncate] (self as usize)
    }
}

impl Cast<i8> for isize {
    open spec fn cast_spec(self) -> i8 {
        self as i8
    }

    fn cast(self) -> (r: i8) {
        #[verifier::truncate] (self as i8)
    }
}

impl Cast<i16> for isize {
    open spec fn cast_spec(self) -> i16 {
        self as i16
    }

    fn cast(self) -> (r: i16) {
        #[verifier::truncate] (self as i16)
    }
}

impl Cast<i32> for isize {
    open spec fn cast_spec(self) -> i32 {
        self as i32
    }

    fn cast(self) -> (r: i32) {
        #[verifier::truncate] (self as i32)
    }
}

impl Cast<i64> for isize {
    open spec fn cast_spec(self) -> i64 {
        self as i64
    }

    fn cast(self) -> (r: i64) {
        self as i64
    }
}

impl Cast<i128> for isize {
    open spec fn cast_spec(self) -> i128 {
        self as i128
    }

    fn cast(self) -> (r: i128) {
        self as i128
    }
}

impl Cast<isize> for isize {
    open spec fn cast_spec(self) -> isize {
        self as isize
    }

    fn cast(self) -> (r: isize) {
        #[verifier::truncate] (self as isize)
    }
}

impl Cast<u8> for isize {
    open spec fn cast_spec(self) -> u8 {
        self as u8
    }

    fn cast(self) -> (r: u8) {
        #[verifier::truncate] (self as u8)
    }
}

impl Cast<u16> for isize {
    open spec fn cast_spec(self) -> u16 {
        self as u16
    }

    fn cast(self) -> (r: u16) {
        #[verifier::truncate] (self as u16)
    }
}

impl Cast<u32> for isize {
    open spec fn cast_spec(self) -> u32 {
        self as u32
    }

    fn cast(self) -> (r: u32) {
        #[verifier::truncate] (self as u32)
    }
}

impl Cast<u64> for isize {
    open spec fn cast_spec(self) -> u64 {
        self as u64
    }

    fn cast(self) -> (r: u64) {
        #[verifier::truncate] (self as u64)
    }
}

impl Cast<u128> for isize {
    open spec fn cast_spec(self) -> u128 {
        self as u128
    }

    fn cast(self) -> (r: u128) {
        #[verifier::truncate] (self as u128)
    }
}

impl Cast<usize> for isize {
    open spec fn cast_spec(self) -> usize {
        self as usize
    }

    fn cast(self) -> (r: usize) {
        #[verifier::truncate] (self as usize)
    }
}

impl Cast<i8> for u8 {
    open spec fn cast_spec(self) -> i8 {
        self as i8
    }

    fn cast(self) -> (r: i8) {
        #[verifier::truncate] (self as i8)
    }
}

impl Cast<i16> for u8 {
    open spec fn cast_spec(self) -> i16 {
        self as i16
    }

    fn cast(self) -> (r: i16) {
        self as i16
    }
}

impl Cast<i32> for u8 {
    open spec fn cast_spec(self) -> i32 {
        self as i32
    }

    fn cast(self) -> (r: i32) {
        self as i32
    }
}

impl Cast<i64> for u8 {
    open spec fn cast_spec(self) -> i64 {
        self as i64
    }

    fn cast(self) -> (r: i64) {
        self as i64
    }
}

impl Cast<i128> for u8 {
    open spec fn cast_spec(self) -> i128 {
        self as i128
    }

    fn cast(self) -> (r: i128) {
        self as i128
    }
}

impl Cast<isize> for u8 {
    open spec fn cast_spec(self) -> isize {
        self as isize
    }

    fn cast(self) -> (r: isize) {
        self as isize
    }
}

impl Cast<u8> for u8 {
    open spec fn cast_spec(self) -> u8 {
        self as u8
    }

    fn cast(self) -> (r: u8) {
        self as u8
    }
}

impl Cast<u16> for u8 {
    open spec fn cast_spec(self) -> u16 {
        self as u16
    }

    fn cast(self) -> (r: u16) {
        self as u16
    }
}

impl Cast<u32> for u8 {
    open spec fn cast_spec(self) -> u32 {
        self as u32
    }

    fn cast(self) -> (r: u32) {
        self as u32
    }
}

impl Cast<u64> for u8 {
    open spec fn cast_spec(self) -> u64 {
        self as u64
    }

    fn cast(self) -> (r: u64) {
        self as u64
    }
}

impl Cast<u128> for u8 {
    open spec fn cast_spec(self) -> u128 {
        self as u128
    }

    fn cast(self) -> (r: u128) {
        self as u128
    }
}

impl Cast<usize> for u8 {
    open spec fn cast_spec(self) -> usize {
        self as usize
    }

    fn cast(self) -> (r: usize) {
        self as usize
    }
}

impl Cast<i8> for u16 {
    open spec fn cast_spec(self) -> i8 {
        self as i8
    }

    fn cast(self) -> (r: i8) {
        #[verifier::truncate] (self as i8)
    }
}

impl Cast<i16> for u16 {
    open spec fn cast_spec(self) -> i16 {
        self as i16
    }

    fn cast(self) -> (r: i16) {
        #[verifier::truncate] (self as i16)
    }
}

impl Cast<i32> for u16 {
    open spec fn cast_spec(self) -> i32 {
        self as i32
    }

    fn cast(self) -> (r: i32) {
        self as i32
    }
}

impl Cast<i64> for u16 {
    open spec fn cast_spec(self) -> i64 {
        self as i64
    }

    fn cast(self) -> (r: i64) {
        self as i64
    }
}

impl Cast<i128> for u16 {
    open spec fn cast_spec(self) -> i128 {
        self as i128
    }

    fn cast(self) -> (r: i128) {
        self as i128
    }
}

impl Cast<isize> for u16 {
    open spec fn cast_spec(self) -> isize {
        self as isize
    }

    fn cast(self) -> (r: isize) {
        self as isize
    }
}

impl Cast<u8> for u16 {
    open spec fn cast_spec(self) -> u8 {
        self as u8
    }

    fn cast(self) -> (r: u8) {
        #[verifier::truncate] (self as u8)
    }
}

impl Cast<u16> for u16 {
    open spec fn cast_spec(self) -> u16 {
        self as u16
    }

    fn cast(self) -> (r: u16) {
        self as u16
    }
}

impl Cast<u32> for u16 {
    open spec fn cast_spec(self) -> u32 {
        self as u32
    }

    fn cast(self) -> (r: u32) {
        self as u32
    }
}

impl Cast<u64> for u16 {
    open spec fn cast_spec(self) -> u64 {
        self as u64
    }

    fn cast(self) -> (r: u64) {
        self as u64
    }
}

impl Cast<u128> for u16 {
    open spec fn cast_spec(self) -> u128 {
        self as u128
    }

    fn cast(self) -> (r: u128) {
        self as u128
    }
}

impl Cast<usize> for u16 {
    open spec fn cast_spec(self) -> usize {
        self as usize
    }

    fn cast(self) -> (r: usize) {
        self as usize
    }
}

impl Cast<i8> for u32 {
    open spec fn cast_spec(self) -> i8 {
        self as i8
    }

    fn cast(self) -> (r: i8) {
        #[verifier::truncate] (self as i8)
    }
}

impl Cast<i16> for u32 {
    open spec fn cast_spec(self) -> i16 {
        self as i16
    }

    fn cast(self) -> (r: i16) {
        #[verifier::truncate] (self as i16)
    }
}

impl Cast<i32> for u32 {
    open spec fn cast_spec(self) -> i32 {
        self as i32
    }

    fn cast(self) -> (r: i32) {
        #[verifier::truncate] (self as i32)
    }
}

impl Cast<i64> for u32 {
    open spec fn cast_spec(self) -> i64 {
        self as i64
    }

    fn cast(self) -> (r: i64) {
        self as i64
    }
}

impl Cast<i128> for u32 {
    open spec fn cast_spec(self) -> i128 {
        self as i128
    }

    fn cast(self) -> (r: i128) {
        self as i128
    }
}

impl Cast<isize> for u32 {
    open spec fn cast_spec(self) -> isize {
        self as isize
    }

    fn cast(self) -> (r: isize) {
        #[verifier::truncate] (self as isize)
    }
}

impl Cast<u8> for u32 {
    open spec fn cast_spec(self) -> u8 {
        self as u8
    }

    fn cast(self) -> (r: u8) {
        #[verifier::truncate] (self as u8)
    }
}

impl Cast<u16> for u32 {
    open spec fn cast_spec(self) -> u16 {
        self as u16
    }

    fn cast(self) -> (r: u16) {
        #[verifier::truncate] (self as u16)
    }
}

impl Cast<u32> for u32 {
    open spec fn cast_spec(self) -> u32 {
        self as u32
    }

    fn cast(self) -> (r: u32) {
        self as u32
    }
}

impl Cast<u64> for u32 {
    open spec fn cast_spec(self) -> u64 {
        self as u64
    }

    fn cast(self) -> (r: u64) {
        self as u64
    }
}

impl Cast<u128> for u32 {
    open spec fn cast_spec(self) -> u128 {
        self as u128
    }

    fn cast(self) -> (r: u128) {
        self as u128
    }
}

impl Cast<usize> for u32 {
    open spec fn cast_spec(self) -> usize {
        self as usize
    }

    fn cast(self) -> (r: usize) {
        self as usize
    }
}

impl Cast<i8> for u64 {
    open spec fn cast_spec(self) -> i8 {
        self as i8
    }

    fn cast(self) -> (r: i8) {
        #[verifier::truncate] (self as i8)
    }
}

impl Cast<i16> for u64 {
    open spec fn cast_spec(self) -> i16 {
        self as i16
    }

    fn cast(self) -> (r: i16) {
        #[verifier::truncate] (self as i16)
    }
}

impl Cast<i32> for u64 {
    open spec fn cast_spec(self) -> i32 {
        self as i32
    }

    fn cast(self) -> (r: i32) {
        #[verifier::truncate] (self as i32)
    }
}

impl Cast<i64> for u64 {
    open spec fn cast_spec(self) -> i64 {
        self as i64
    }

    fn cast(self) -> (r: i64) {
        #[verifier::truncate] (self as i64)
    }
}

impl Cast<i128> for u64 {
    open spec fn cast_spec(self) -> i128 {
        self as i128
    }

    fn cast(self) -> (r: i128) {
        self as i128
    }
}

impl Cast<isize> for u64 {
    open spec fn cast_spec(self) -> isize {
        self as isize
    }

    fn cast(self) -> (r: isize) {
        #[verifier::truncate] (self as isize)
    }
}

impl Cast<u8> for u64 {
    open spec fn cast_spec(self) -> u8 {
        self as u8
    }

    fn cast(self) -> (r: u8) {
        #[verifier::truncate] (self as u8)
    }
}

impl Cast<u16> for u64 {
    open spec fn cast_spec(self) -> u16 {
        self as u16
    }

    fn cast(self) -> (r: u16) {
        #[verifier::truncate] (self as u16)
    }
}

impl Cast<u32> for u64 {
    open spec fn cast_spec(self) -> u32 {
        self as u32
    }

    fn cast(self) -> (r: u32) {
        #[verifier::truncate] (self as u32)
    }
}

impl Cast<u64> for u64 {
    open spec fn cast_spec(self) -> u64 {
        self as u64
    }

    fn cast(self) -> (r: u64) {
        self as u64
    }
}

impl Cast<u128> for u64 {
    open spec fn cast_spec(self) -> u128 {
        self as u128
    }

    fn cast(self) -> (r: u128) {
        self as u128
    }
}

impl Cast<usize> for u64 {
    open spec fn cast_spec(self) -> usize {
        self as usize
    }

    fn cast(self) -> (r: usize) {
        #[verifier::truncate] (self as usize)
    }
}

impl Cast<i8> for u128 {
    open spec fn cast_spec(self) -> i8 {
        self as i8
    }

    fn cast(self) -> (r: i8) {
        #[verifier::truncate] (self as i8)
    }
}

impl Cast<i16> for u128 {
    open spec fn cast_spec(self) -> i16 {
        self as i16
    }

    fn cast(self) -> (r: i16) {
        #[verifier::truncate] (self as i16)
    }
}

impl Cast<i32> for u128 {
    open spec fn cast_spec(self) -> i32 {
        self as i32
    }

    fn cast(self) -> (r: i32) {
        #[verifier::truncate] (self as i32)
    }
}

impl Cast<i64> for u128 {
    open spec fn cast_spec(self) -> i64 {
        self as i64
    }

    fn cast(self) -> (r: i64) {
        #[verifier::truncate] (self as i64)
    }
}

impl Cast<i128> for u128 {
    open spec fn cast_spec(self) -> i128 {
        self as i128
    }

    fn cast(self) -> (r: i128) {
        #[verifier::truncate] (self as i128)
    }
}

impl Cast<isize> for u128 {
    open spec fn cast_spec(self) -> isize {
        self as isize
    }

    fn cast(self) -> (r: isize) {
        #[verifier::truncate] (self as isize)
    }
}

impl Cast<u8> for u128 {
    open spec fn cast_spec(self) -> u8 {
        self as u8
    }

    fn cast(self) -> (r: u8) {
        #[verifier::truncate] (self as u8)
    }
}

impl Cast<u16> for u128 {
    open spec fn cast_spec(self) -> u16 {
        self as u16
    }

    fn cast(self) -> (r: u16) {
        #[verifier::truncate] (self as u16)
    }
}

impl Cast<u32> for u128 {
    open spec fn cast_spec(self) -> u32 {
        self as u32
    }

    fn cast(self) -> (r: u32) {
        #[verifier::truncate] (self as u32)
    }
}

impl Cast<u64> for u128 {
    open spec fn cast_spec(self) -> u64 {
        self as u64
    }

    fn cast(self) -> (r: u64) {
        #[verifier::truncate] (self as u64)
    }
}

impl Cast<u128> for u128 {
    open spec fn cast_spec(self) -> u128 {
        self as u128
    }

    fn cast(self) -> (r: u128) {
        self as u128
    }
}

impl Cast<usize> for u128 {
    open spec fn cast_spec(self) -> usize {
        self as usize
    }

    fn cast(self) -> (r: usize) {
        #[verifier::truncate] (self as usize)
    }
}

impl Cast<i8> for usize {
    open spec fn cast_spec(self) -> i8 {
        self as i8
    }

    fn cast(self) -> (r: i8) {
        #[verifier::truncate] (self as i8)
    }
}

impl Cast<i16> for usize {
    open spec fn cast_spec(self) -> i16 {
        self as i16
    }

    fn cast(self) -> (r: i16) {
        #[verifier::truncate] (self as i16)
    }
}

impl Cast<i32> for usize {
    open spec fn cast_spec(self) -> i32 {
        self as i32
    }

    fn cast(self) -> (r: i32) {
        #[verifier::truncate] (self as i32)
    }
}

impl Cast<i64> for usize {
    open spec fn cast_spec(self) -> i64 {
        self as i64
    }

    fn cast(self) -> (r: i64) {
        #[verifier::truncate] (self as i64)
    }
}

impl Cast<i128> for usize {
    open spec fn cast_spec(self) -> i128 {
        self as i128
    }

    fn cast(self) -> (r: i128) {
        self as i128
    }
}

impl Cast<isize> for usize {
    open spec fn cast_spec(self) -> isize {
        self as isize
    }

    fn cast(self) -> (r: isize) {
        #[verifier::truncate] (self as isize)
    }
}

impl Cast<u8> for usize {
    open spec fn cast_spec(self) -> u8 {
        self as u8
    }

    fn cast(self) -> (r: u8) {
        #[verifier::truncate] (self as u8)
    }
}

impl Cast<u16> for usize {
    open spec fn cast_spec(self) -> u16 {
        self as u16
    }

    fn cast(self) -> (r: u16) {
        #[verifier::truncate] (self as u16)
    }
}

impl Cast<u32> for usize {
    open spec fn cast_spec(self) -> u32 {
        self as u32
    }

    fn cast(self) -> (r: u32) {
        #[verifier::truncate] (self as u32)
    }
}

impl Cast<u64> for usize {
    open spec fn cast_spec(self) -> u64 {
        self as u64
    }

    fn cast(self) -> (r: u64) {
        self as u64
    }
}

impl Cast<u128> for usize {
    open spec fn cast_spec(self) -> u128 {
        self as u128
    }

    fn cast(self) -> (r: u128) {
        self as u128
    }
}

impl Cast<usize> for usize {
    open spec fn cast_spec(self) -> usize {
        self as usize
    }

    fn cast(self) -> (r: usize) {
        #[verifier::truncate] (self as usize)
    }
}

impl Cast<i8> for bool {
    open spec fn cast_spec(self) -> i8 {
        if self {
            1i8
        } else {
            0i8
        }
    }

    fn cast(self) -> (r: i8) {
        if self {
            1
        } else {
            0
        }
    }
}

impl Cast<bool> for i8 {
    open spec fn cast_spec(self) -> bool {
        self != 0
    }

    fn cast(self) -> (r: bool) {
        self != 0
    }
}

impl Cast<i16> for bool {
    open spec fn cast_spec(self) -> i16 {
        if self {
            1i16
        } else {
            0i16
        }
    }

    fn cast(self) -> (r: i16) {
        if self {
            1
        } else {
            0
        }
    }
}

impl Cast<bool> for i16 {
    open spec fn cast_spec(self) -> bool {
        self != 0
    }

    fn cast(self) -> (r: bool) {
        self != 0
    }
}

impl Cast<i32> for bool {
    open spec fn cast_spec(self) -> i32 {
        if self {
            1i32
        } else {
            0i32
        }
    }

    fn cast(self) -> (r: i32) {
        if self {
            1
        } else {
            0
        }
    }
}

impl Cast<bool> for i32 {
    open spec fn cast_spec(self) -> bool {
        self != 0
    }

    fn cast(self) -> (r: bool) {
        self != 0
    }
}

impl Cast<i64> for bool {
    open spec fn cast_spec(self) -> i64 {
        if self {
            1i64
        } else {
            0i64
        }
    }

    fn cast(self) -> (r: i64) {
        if self {
            1
        } else {
            0
        }
    }
}

impl Cast<bool> for i64 {
    open spec fn cast_spec(self) -> bool {
        self != 0
    }

    fn cast(self) -> (r: bool) {
        self != 0
    }
}

impl Cast<i128> for bool {
    open spec fn cast_spec(self) -> i128 {
        if self {
            1i128
        } else {
            0i128
        }
    }

    fn cast(self) -> (r: i128) {
        if self {
            1
        } else {
            0
        }
    }
}

impl Cast<bool> for i128 {
    open spec fn cast_spec(self) -> bool {
        self != 0
    }

    fn cast(self) -> (r: bool) {
        self != 0
    }
}

impl Cast<isize> for bool {
    open spec fn cast_spec(self) -> isize {
        if self {
            1isize
        } else {
            0isize
        }
    }

    fn cast(self) -> (r: isize) {
        if self {
            1
        } else {
            0
        }
    }
}

impl Cast<bool> for isize {
    open spec fn cast_spec(self) -> bool {
        self != 0
    }

    fn cast(self) -> (r: bool) {
        self != 0
    }
}

impl Cast<u8> for bool {
    open spec fn cast_spec(self) -> u8 {
        if self {
            1u8
        } else {
            0u8
        }
    }

    fn cast(self) -> (r: u8) {
        if self {
            1
        } else {
            0
        }
    }
}

impl Cast<bool> for u8 {
    open spec fn cast_spec(self) -> bool {
        self != 0
    }

    fn cast(self) -> (r: bool) {
        self != 0
    }
}

impl Cast<u16> for bool {
    open spec fn cast_spec(self) -> u16 {
        if self {
            1u16
        } else {
            0u16
        }
    }

    fn cast(self) -> (r: u16) {
        if self {
            1
        } else {
            0
        }
    }
}

impl Cast<bool> for u16 {
    open spec fn cast_spec(self) -> bool {
        self != 0
    }

    fn cast(self) -> (r: bool) {
        self != 0
    }
}

impl Cast<u32> for bool {
    open spec fn cast_spec(self) -> u32 {
        if self {
            1u32
        } else {
            0u32
        }
    }

    fn cast(self) -> (r: u32) {
        if self {
            1
        } else {
            0
        }
    }
}

impl Cast<bool> for u32 {
    open spec fn cast_spec(self) -> bool {
        self != 0
    }

    fn cast(self) -> (r: bool) {
        self != 0
    }
}

impl Cast<u64> for bool {
    open spec fn cast_spec(self) -> u64 {
        if self {
            1u64
        } else {
            0u64
        }
    }

    fn cast(self) -> (r: u64) {
        if self {
            1
        } else {
            0
        }
    }
}

impl Cast<bool> for u64 {
    open spec fn cast_spec(self) -> bool {
        self != 0
    }

    fn cast(self) -> (r: bool) {
        self != 0
    }
}

impl Cast<u128> for bool {
    open spec fn cast_spec(self) -> u128 {
        if self {
            1u128
        } else {
            0u128
        }
    }

    fn cast(self) -> (r: u128) {
        if self {
            1
        } else {
            0
        }
    }
}

impl Cast<bool> for u128 {
    open spec fn cast_spec(self) -> bool {
        self != 0
    }

    fn cast(self) -> (r: bool) {
        self != 0
    }
}

impl Cast<usize> for bool {
    open spec fn cast_spec(self) -> usize {
        if self {
            1usize
        } else {
            0usize
        }
    }

    fn cast(self) -> (r: usize) {
        if self {
            1
        } else {
            0
        }
    }
}

impl Cast<bool> for usize {
    open spec fn cast_spec(self) -> bool {
        self != 0
    }

    fn cast(self) -> (r: bool) {
        self != 0
    }
}

} // verus!
