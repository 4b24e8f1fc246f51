//! The laws of the conversion registry, each proved from the `cast_spec`
//! definitions: conversion to the own type is the identity, widening
//! preserves the value, boolean conversion round-trips and follows the zero
//! rule, wrapper conversion is transparent, and array conversion preserves
//! length and order.

use crate::cast::{Cast, Wrapping};
use vstd::prelude::*;

verus! {

/// Converting a `i8` to `i8` is the identity.
pub proof fn cast_identity_i8(v: i8)
    ensures
        Cast::<i8>::cast_spec(v) == v,
{
}

/// Converting a `i16` to `i16` is the identity.
pub proof fn cast_identity_i16(v: i16)
    ensures
        Cast::<i16>::cast_spec(v) == v,
{
}

/// Converting a `i32` to `i32` is the identity.
pub proof fn cast_identity_i32(v: i32)
    ensures
        Cast::<i32>::cast_spec(v) == v,
{
}

/// Converting a `i64` to `i64` is the identity.
pub proof fn cast_identity_i64(v: i64)
    ensures
        Cast::<i64>::cast_spec(v) == v,
{
}

/// Converting a `i128` to `i128` is the identity.
pub proof fn cast_identity_i128(v: i128)
    ensures
        Cast::<i128>::cast_spec(v) == v,
{
}

/// Converting a `isize` to `isize` is the identity.
pub proof fn cast_identity_isize(v: isize)
    ensures
        Cast::<isize>::cast_spec(v) == v,
{
}

/// Converting a `u8` to `u8` is the identity.
pub proof fn cast_identity_u8(v: u8)
    ensures
        Cast::<u8>::cast_spec(v) == v,
{
}

/// Converting a `u16` to `u16` is the identity.
pub proof fn cast_identity_u16(v: u16)
    ensures
        Cast::<u16>::cast_spec(v) == v,
{
}

/// Converting a `u32` to `u32` is the identity.
pub proof fn cast_identity_u32(v: u32)
    ensures
        Cast::<u32>::cast_spec(v) == v,
{
}

/// Converting a `u64` to `u64` is the identity.
pub proof fn cast_identity_u64(v: u64)
    ensures
        Cast::<u64>::cast_spec(v) == v,
{
}

/// Converting a `u128` to `u128` is the identity.
pub proof fn cast_identity_u128(v: u128)
    ensures
        Cast::<u128>::cast_spec(v) == v,
{
}

/// Converting a `usize` to `usize` is the identity.
pub proof fn cast_identity_usize(v: usize)
    ensures
        Cast::<usize>::cast_spec(v) == v,
{
}

/// Widening a `i8` to `i16` preserves the value.
pub proof fn widen_i8_i16(v: i8)
    ensures
        Cast::<i16>::cast_spec(v) == v,
{
}

/// Widening a `i8` to `i32` preserves the value.
pub proof fn widen_i8_i32(v: i8)
    ensures
        Cast::<i32>::cast_spec(v) == v,
{
}

/// Widening a `i8` to `i64` preserves the value.
pub proof fn widen_i8_i64(v: i8)
    ensures
        Cast::<i64>::cast_spec(v) == v,
{
}

/// Widening a `i8` to `i128` preserves the value.
pub proof fn widen_i8_i128(v: i8)
    ensures
        Cast::<i128>::cast_spec(v) == v,
{
}

/// Widening a `i8` to `isize` preserves the value.
pub proof fn widen_i8_isize(v: i8)
    ensures
        Cast::<isize>::cast_spec(v) == v,
{
}

/// Widening a `i16` to `i32` preserves the value.
pub proof fn widen_i16_i32(v: i16)
    ensures
        Cast::<i32>::cast_spec(v) == v,
{
}

/// Widening a `i16` to `i64` preserves the value.
pub proof fn widen_i16_i64(v: i16)
    ensures
        Cast::<i64>::cast_spec(v) == v,
{
}

/// Widening a `i16` to `i128` preserves the value.
pub proof fn widen_i16_i128(v: i16)
    ensures
        Cast::<i128>::cast_spec(v) == v,
{
}

/// Widening a `i16` to `isize` preserves the value.
pub proof fn widen_i16_isize(v: i16)
    ensures
        Cast::<isize>::cast_spec(v) == v,
{
}

/// Widening a `i32` to `i64` preserves the value.
pub proof fn widen_i32_i64(v: i32)
    ensures
        Cast::<i64>::cast_spec(v) == v,
{
}

/// Widening a `i32` to `i128` preserves the value.
pub proof fn widen_i32_i128(v: i32)
    ensures
        Cast::<i128>::cast_spec(v) == v,
{
}

/// Widening a `i32` to `isize` preserves the value.
pub proof fn widen_i32_isize(v: i32)
    ensures
        Cast::<isize>::cast_spec(v) == v,
{
}

/// Widening a `i64` to `i128` preserves the value.
pub proof fn widen_i64_i128(v: i64)
    ensures
        Cast::<i128>::cast_spec(v) == v,
{
}

/// Widening a `isize` to `i64` preserves the value.
pub proof fn widen_isize_i64(v: isize)
    ensures
        Cast::<i64>::cast_spec(v) == v,
{
}

/// Widening a `isize` to `i128` preserves the value.
pub proof fn widen_isize_i128(v: isize)
    ensures
        Cast::<i128>::cast_spec(v) == v,
{
}

/// Widening a `u8` to `u16` preserves the value.
pub proof fn widen_u8_u16(v: u8)
    ensures
        Cast::<u16>::cast_spec(v) == v,
{
}

/// Widening a `u8` to `u32` preserves the value.
pub proof fn widen_u8_u32(v: u8)
    ensures
        Cast::<u32>::cast_spec(v) == v,
{
}

/// Widening a `u8` to `u64` preserves the value.
pub proof fn widen_u8_u64(v: u8)
    ensures
        Cast::<u64>::cast_spec(v) == v,
{
}

/// Widening a `u8` to `u128` preserves the value.
pub proof fn widen_u8_u128(v: u8)
    ensures
        Cast::<u128>::cast_spec(v) == v,
{
}

/// Widening a `u8` to `usize` preserves the value.
pub proof fn widen_u8_usize(v: u8)
    ensures
        Cast::<usize>::cast_spec(v) == v,
{
}

/// Widening a `u16` to `u32` preserves the value.
pub proof fn widen_u16_u32(v: u16)
    ensures
        Cast::<u32>::cast_spec(v) == v,
{
}

/// Widening a `u16` to `u64` preserves the value.
pub proof fn widen_u16_u64(v: u16)
    ensures
        Cast::<u64>::cast_spec(v) == v,
{
}

/// Widening a `u16` to `u128` preserves the value.
pub proof fn widen_u16_u128(v: u16)
    ensures
        Cast::<u128>::cast_spec(v) == v,
{
}

/// Widening a `u16` to `usize` preserves the value.
pub proof fn widen_u16_usize(v: u16)
    ensures
        Cast::<usize>::cast_spec(v) == v,
{
}

/// Widening a `u32` to `u64` preserves the value.
pub proof fn widen_u32_u64(v: u32)
    ensures
        Cast::<u64>::cast_spec(v) == v,
{
}

/// Widening a `u32` to `u128` preserves the value.
pub proof fn widen_u32_u128(v: u32)
    ensures
        Cast::<u128>::cast_spec(v) == v,
{
}

/// Widening a `u32` to `usize` preserves the value.
pub proof fn widen_u32_usize(v: u32)
    ensures
        Cast::<usize>::cast_spec(v) == v,
{
}

/// Widening a `u64` to `u128` preserves the value.
pub proof fn widen_u64_u128(v: u64)
    ensures
        Cast::<u128>::cast_spec(v) == v,
{
}

/// Widening a `usize` to `u64` preserves the value.
pub proof fn widen_usize_u64(v: usize)
    ensures
        Cast::<u64>::cast_spec(v) == v,
{
}

/// Widening a `usize` to `u128` preserves the value.
pub proof fn widen_usize_u128(v: usize)
    ensures
        Cast::<u128>::cast_spec(v) == v,
{
}

/// A boolean survives a round trip through `i8`.
pub proof fn bool_round_trip_i8(b: bool)
    ensures
        Cast::<bool>::cast_spec(Cast::<i8>::cast_spec(b)) == b,
{
}

/// A boolean survives a round trip through `i16`.
pub proof fn bool_round_trip_i16(b: bool)
    ensures
        Cast::<bool>::cast_spec(Cast::<i16>::cast_spec(b)) == b,
{
}

/// A boolean survives a round trip through `i32`.
pub proof fn bool_round_trip_i32(b: bool)
    ensures
        Cast::<bool>::cast_spec(Cast::<i32>::cast_spec(b)) == b,
{
}

/// A boolean survives a round trip through `i64`.
pub proof fn bool_round_trip_i64(b: bool)
    ensures
        Cast::<bool>::cast_spec(Cast::<i64>::cast_spec(b)) == b,
{
}

/// A boolean survives a round trip through `i128`.
pub proof fn bool_round_trip_i128(b: bool)
    ensures
        Cast::<bool>::cast_spec(Cast::<i128>::cast_spec(b)) == b,
{
}

/// A boolean survives a round trip through `isize`.
pub proof fn bool_round_trip_isize(b: bool)
    ensures
        Cast::<bool>::cast_spec(Cast::<isize>::cast_spec(b)) == b,
{
}

/// A boolean survives a round trip through `u8`.
pub proof fn bool_round_trip_u8(b: bool)
    ensures
        Cast::<bool>::cast_spec(Cast::<u8>::cast_spec(b)) == b,
{
}

/// A boolean survives a round trip through `u16`.
pub proof fn bool_round_trip_u16(b: bool)
    ensures
        Cast::<bool>::cast_spec(Cast::<u16>::cast_spec(b)) == b,
{
}

/// A boolean survives a round trip through `u32`.
pub proof fn bool_round_trip_u32(b: bool)
    ensures
        Cast::<bool>::cast_spec(Cast::<u32>::cast_spec(b)) == b,
{
}

/// A boolean survives a round trip through `u64`.
pub proof fn bool_round_trip_u64(b: bool)
    ensures
        Cast::<bool>::cast_spec(Cast::<u64>::cast_spec(b)) == b,
{
}

/// A boolean survives a round trip through `u128`.
pub proof fn bool_round_trip_u128(b: bool)
    ensures
        Cast::<bool>::cast_spec(Cast::<u128>::cast_spec(b)) == b,
{
}

/// A boolean survives a round trip through `usize`.
pub proof fn bool_round_trip_usize(b: bool)
    ensures
        Cast::<bool>::cast_spec(Cast::<usize>::cast_spec(b)) == b,
{
}

/// A `i8` converts to `false` exactly when it is zero.
pub proof fn bool_zero_rule_i8(v: i8)
    ensures
        Cast::<bool>::cast_spec(v) == (v != 0),
{
}

/// A `i16` converts to `false` exactly when it is zero.
pub proof fn bool_zero_rule_i16(v: i16)
    ensures
        Cast::<bool>::cast_spec(v) == (v != 0),
{
}

/// A `i32` converts to `false` exactly when it is zero.
pub proof fn bool_zero_rule_i32(v: i32)
    ensures
        Cast::<bool>::cast_spec(v) == (v != 0),
{
}

/// A `i64` converts to `false` exactly when it is zero.
pub proof fn bool_zero_rule_i64(v: i64)
    ensures
        Cast::<bool>::cast_spec(v) == (v != 0),
{
}

/// A `i128` converts to `false` exactly when it is zero.
pub proof fn bool_zero_rule_i128(v: i128)
    ensures
        Cast::<bool>::cast_spec(v) == (v != 0),
{
}

/// A `isize` converts to `false` exactly when it is zero.
pub proof fn bool_zero_rule_isize(v: isize)
    ensures
        Cast::<bool>::cast_spec(v) == (v != 0),
{
}

/// A `u8` converts to `false` exactly when it is zero.
pub proof fn bool_zero_rule_u8(v: u8)
    ensures
        Cast::<bool>::cast_spec(v) == (v != 0),
{
}

/// A `u16` converts to `false` exactly when it is zero.
pub proof fn bool_zero_rule_u16(v: u16)
    ensures
        Cast::<bool>::cast_spec(v) == (v != 0),
{
}

/// A `u32` converts to `false` exactly when it is zero.
pub proof fn bool_zero_rule_u32(v: u32)
    ensures
        Cast::<bool>::cast_spec(v) == (v != 0),
{
}

/// A `u64` converts to `false` exactly when it is zero.
pub proof fn bool_zero_rule_u64(v: u64)
    ensures
        Cast::<bool>::cast_spec(v) == (v != 0),
{
}

/// A `u128` converts to `false` exactly when it is zero.
pub proof fn bool_zero_rule_u128(v: u128)
    ensures
        Cast::<bool>::cast_spec(v) == (v != 0),
{
}

/// A `usize` converts to `false` exactly when it is zero.
pub proof fn bool_zero_rule_usize(v: usize)
    ensures
        Cast::<bool>::cast_spec(v) == (v != 0),
{
}

/// Narrowing a `u16` to `u8` keeps the value modulo 256: the high-order
/// bits are discarded, wrapping around instead of failing.
pub proof fn narrow_u16_u8_wraps(v: u16)
    ensures
        Cast::<u8>::cast_spec(v) == v % 256,
{
    assert((v as u8) as u16 == v % 256) by (bit_vector);
}

/// Narrowing a `u32` to `u16` keeps the value modulo 65536.
pub proof fn narrow_u32_u16_wraps(v: u32)
    ensures
        Cast::<u16>::cast_spec(v) == v % 65536,
{
    assert((v as u16) as u32 == v % 65536) by (bit_vector);
}

/// Narrowing a `u64` to `u32` keeps the value modulo 2^32.
pub proof fn narrow_u64_u32_wraps(v: u64)
    ensures
        Cast::<u32>::cast_spec(v) == v % 0x1_0000_0000,
{
    assert((v as u32) as u64 == v % 0x1_0000_0000) by (bit_vector);
}

/// Converting a `u8` to `i8` reinterprets the bits per the target's
/// signedness: values below 128 are kept, values from 128 up wrap around to
/// the negatives.
pub proof fn reinterpret_u8_i8(v: u8)
    ensures
        v < 128 ==> Cast::<i8>::cast_spec(v) == v,
        v >= 128 ==> Cast::<i8>::cast_spec(v) == v - 256,
{
    assert(v < 128 ==> (v as i8) as i16 == v as i16) by (bit_vector);
    assert(v >= 128 ==> (v as i8) as i16 == v as i16 - 256) by (bit_vector);
}

/// Converting a wrapper converts the inner value and re-wraps it.
pub proof fn wrapper_transparency<A: Cast<B>, B>(a: A)
    ensures
        Cast::<Wrapping<B>>::cast_spec(Wrapping(a)) == Wrapping(Cast::<B>::cast_spec(a)),
{
}

/// Converting a length-0 array keeps the length and converts each element in place.
pub proof fn array_cast_elementwise_0<A: Copy + Cast<B>, B>(x: [A; 0])
    ensures
        (Cast::<[B; 0]>::cast_spec(x))@.len() == 0,
        forall|i: int|
            0 <= i < 0 ==> (Cast::<[B; 0]>::cast_spec(x))@[i] == #[trigger] x@[i].cast_spec(),
{
}

/// Converting a length-1 array keeps the length and converts each element in place.
pub proof fn array_cast_elementwise_1<A: Copy + Cast<B>, B>(x: [A; 1])
    ensures
        (Cast::<[B; 1]>::cast_spec(x))@.len() == 1,
        forall|i: int|
            0 <= i < 1 ==> (Cast::<[B; 1]>::cast_spec(x))@[i] == #[trigger] x@[i].cast_spec(),
{
}

/// Converting a length-2 array keeps the length and converts each element in place.
pub proof fn array_cast_elementwise_2<A: Copy + Cast<B>, B>(x: [A; 2])
    ensures
        (Cast::<[B; 2]>::cast_spec(x))@.len() == 2,
        forall|i: int|
            0 <= i < 2 ==> (Cast::<[B; 2]>::cast_spec(x))@[i] == #[trigger] x@[i].cast_spec(),
{
}

/// Converting a length-3 array keeps the length and converts each element in place.
pub proof fn array_cast_elementwise_3<A: Copy + Cast<B>, B>(x: [A; 3])
    ensures
        (Cast::<[B; 3]>::cast_spec(x))@.len() == 3,
        forall|i: int|
            0 <= i < 3 ==> (Cast::<[B; 3]>::cast_spec(x))@[i] == #[trigger] x@[i].cast_spec(),
{
}

/// Converting a length-4 array keeps the length and converts each element in place.
pub proof fn array_cast_elementwise_4<A: Copy + Cast<B>, B>(x: [A; 4])
    ensures
        (Cast::<[B; 4]>::cast_spec(x))@.len() == 4,
        forall|i: int|
            0 <= i < 4 ==> (Cast::<[B; 4]>::cast_spec(x))@[i] == #[trigger] x@[i].cast_spec(),
{
}

/// Converting a length-5 array keeps the length and converts each element in place.
pub proof fn array_cast_elementwise_5<A: Copy + Cast<B>, B>(x: [A; 5])
    ensures
        (Cast::<[B; 5]>::cast_spec(x))@.len() == 5,
        forall|i: int|
            0 <= i < 5 ==> (Cast::<[B; 5]>::cast_spec(x))@[i] == #[trigger] x@[i].cast_spec(),
{
}

/// Converting a length-6 array keeps the length and converts each element in place.
pub proof fn array_cast_elementwise_6<A: Copy + Cast<B>, B>(x: [A; 6])
    ensures
        (Cast::<[B; 6]>::cast_spec(x))@.len() == 6,
        forall|i: int|
            0 <= i < 6 ==> (Cast::<[B; 6]>::cast_spec(x))@[i] == #[trigger] x@[i].cast_spec(),
{
}

/// Converting a length-7 array keeps the length and converts each element in place.
pub proof fn array_cast_elementwise_7<A: Copy + Cast<B>, B>(x: [A; 7])
    ensures
        (Cast::<[B; 7]>::cast_spec(x))@.len() == 7,
        forall|i: int|
            0 <= i < 7 ==> (Cast::<[B; 7]>::cast_spec(x))@[i] == #[trigger] x@[i].cast_spec(),
{
}

/// Converting a length-8 array keeps the length and converts each element in place.
pub proof fn array_cast_elementwise_8<A: Copy + Cast<B>, B>(x: [A; 8])
    ensures
        (Cast::<[B; 8]>::cast_spec(x))@.len() == 8,
        forall|i: int|
            0 <= i < 8 ==> (Cast::<[B; 8]>::cast_spec(x))@[i] == #[trigger] x@[i].cast_spec(),
{
}

/// Converting a length-9 array keeps the length and converts each element in place.
pub proof fn array_cast_elementwise_9<A: Copy + Cast<B>, B>(x: [A; 9])
    ensures
        (Cast::<[B; 9]>::cast_spec(x))@.len() == 9,
        forall|i: int|
            0 <= i < 9 ==> (Cast::<[B; 9]>::cast_spec(x))@[i] == #[trigger] x@[i].cast_spec(),
{
}

/// Converting a length-10 array keeps the length and converts each element in place.
pub proof fn array_cast_elementwise_10<A: Copy + Cast<B>, B>(x: [A; 10])
    ensures
        (Cast::<[B; 10]>::cast_spec(x))@.len() == 10,
        forall|i: int|
            0 <= i < 10 ==> (Cast::<[B; 10]>::cast_spec(x))@[i] == #[trigger] x@[i].cast_spec(),
{
}

/// Converting a length-11 array keeps the length and converts each element in place.
pub proof fn array_cast_elementwise_11<A: Copy + Cast<B>, B>(x: [A; 11])
    ensures
        (Cast::<[B; 11]>::cast_spec(x))@.len() == 11,
        forall|i: int|
            0 <= i < 11 ==> (Cast::<[B; 11]>::cast_spec(x))@[i] == #[trigger] x@[i].cast_spec(),
{
}

/// Converting a length-12 array keeps the length and converts each element in place.
pub proof fn array_cast_elementwise_12<A: Copy + Cast<B>, B>(x: [A; 12])
    ensures
        (Cast::<[B; 12]>::cast_spec(x))@.len() == 12,
        forall|i: int|
            0 <= i < 12 ==> (Cast::<[B; 12]>::cast_spec(x))@[i] == #[trigger] x@[i].cast_spec(),
{
}

/// Converting a length-13 array keeps the length and converts each element in place.
pub proof fn array_cast_elementwise_13<A: Copy + Cast<B>, B>(x: [A; 13])
    ensures
        (Cast::<[B; 13]>::cast_spec(x))@.len() == 13,
        forall|i: int|
            0 <= i < 13 ==> (Cast::<[B; 13]>::cast_spec(x))@[i] == #[trigger] x@[i].cast_spec(),
{
}

/// Converting a length-14 array keeps the length and converts each element in place.
pub proof fn array_cast_elementwise_14<A: Copy + Cast<B>, B>(x: [A; 14])
    ensures
        (Cast::<[B; 14]>::cast_spec(x))@.len() == 14,
        forall|i: int|
            0 <= i < 14 ==> (Cast::<[B; 14]>::cast_spec(x))@[i] == #[trigger] x@[i].cast_spec(),
{
}

/// Converting a length-15 array keeps the length and converts each element in place.
pub proof fn array_cast_elementwise_15<A: Copy + Cast<B>, B>(x: [A; 15])
    ensures
        (Cast::<[B; 15]>::cast_spec(x))@.len() == 15,
        forall|i: int|
            0 <= i < 15 ==> (Cast::<[B; 15]>::cast_spec(x))@[i] == #[trigger] x@[i].cast_spec(),
{
}

/// Converting a length-16 array keeps the length and converts each element in place.
pub proof fn array_cast_elementwise_16<A: Copy + Cast<B>, B>(x: [A; 16])
    ensures
        (Cast::<[B; 16]>::cast_spec(x))@.len() == 16,
        forall|i: int|
            0 <= i < 16 ==> (Cast::<[B; 16]>::cast_spec(x))@[i] == #[trigger] x@[i].cast_spec(),
{
}

/// Converting a length-17 array keeps the length and converts each element in place.
pub proof fn array_cast_elementwise_17<A: Copy + Cast<B>, B>(x: [A; 17])
    ensures
        (Cast::<[B; 17]>::cast_spec(x))@.len() == 17,
        forall|i: int|
            0 <= i < 17 ==> (Cast::<[B; 17]>::cast_spec(x))@[i] == #[trigger] x@[i].cast_spec(),
{
}

/// Converting a length-18 array keeps the length and converts each element in place.
pub proof fn array_cast_elementwise_18<A: Copy + Cast<B>, B>(x: [A; 18])
    ensures
        (Cast::<[B; 18]>::cast_spec(x))@.len() == 18,
        forall|i: int|
            0 <= i < 18 ==> (Cast::<[B; 18]>::cast_spec(x))@[i] == #[trigger] x@[i].cast_spec(),
{
}

/// Converting a length-19 array keeps the length and converts each element in place.
pub proof fn array_cast_elementwise_19<A: Copy + Cast<B>, B>(x: [A; 19])
    ensures
        (Cast::<[B; 19]>::cast_spec(x))@.len() == 19,
        forall|i: int|
            0 <= i < 19 ==> (Cast::<[B; 19]>::cast_spec(x))@[i] == #[trigger] x@[i].cast_spec(),
{
}

/// Converting a length-20 array keeps the length and converts each element in place.
pub proof fn array_cast_elementwise_20<A: Copy + Cast<B>, B>(x: [A; 20])
    ensures
        (Cast::<[B; 20]>::cast_spec(x))@.len() == 20,
        forall|i: int|
            0 <= i < 20 ==> (Cast::<[B; 20]>::cast_spec(x))@[i] == #[trigger] x@[i].cast_spec(),
{
}

/// Converting a length-21 array keeps the length and converts each element in place.
pub proof fn array_cast_elementwise_21<A: Copy + Cast<B>, B>(x: [A; 21])
    ensures
        (Cast::<[B; 21]>::cast_spec(x))@.len() == 21,
        forall|i: int|
            0 <= i < 21 ==> (Cast::<[B; 21]>::cast_spec(x))@[i] == #[trigger] x@[i].cast_spec(),
{
}

/// Converting a length-22 array keeps the length and converts each element in place.
pub proof fn array_cast_elementwise_22<A: Copy + Cast<B>, B>(x: [A; 22])
    ensures
        (Cast::<[B; 22]>::cast_spec(x))@.len() == 22,
        forall|i: int|
            0 <= i < 22 ==> (Cast::<[B; 22]>::cast_spec(x))@[i] == #[trigger] x@[i].cast_spec(),
{
}

/// Converting a length-23 array keeps the length and converts each element in place.
pub proof fn array_cast_elementwise_23<A: Copy + Cast<B>, B>(x: [A; 23])
    ensures
        (Cast::<[B; 23]>::cast_spec(x))@.len() == 23,
        forall|i: int|
            0 <= i < 23 ==> (Cast::<[B; 23]>::cast_spec(x))@[i] == #[trigger] x@[i].cast_spec(),
{
}

/// Converting a length-24 array keeps the length and converts each element in place.
pub proof fn array_cast_elementwise_24<A: Copy + Cast<B>, B>(x: [A; 24])
    ensures
        (Cast::<[B; 24]>::cast_spec(x))@.len() == 24,
        forall|i: int|
            0 <= i < 24 ==> (Cast::<[B; 24]>::cast_spec(x))@[i] == #[trigger] x@[i].cast_spec(),
{
}

/// Converting a length-25 array keeps the length and converts each element in place.
pub proof fn array_cast_elementwise_25<A: Copy + Cast<B>, B>(x: [A; 25])
    ensures
        (Cast::<[B; 25]>::cast_spec(x))@.len() == 25,
        forall|i: int|
            0 <= i < 25 ==> (Cast::<[B; 25]>::cast_spec(x))@[i] == #[trigger] x@[i].cast_spec(),
{
}

/// Converting a length-26 array keeps the length and converts each element in place.
pub proof fn array_cast_elementwise_26<A: Copy + Cast<B>, B>(x: [A; 26])
    ensures
        (Cast::<[B; 26]>::cast_spec(x))@.len() == 26,
        forall|i: int|
            0 <= i < 26 ==> (Cast::<[B; 26]>::cast_spec(x))@[i] == #[trigger] x@[i].cast_spec(),
{
}

/// Converting a length-27 array keeps the length and converts each element in place.
pub proof fn array_cast_elementwise_27<A: Copy + Cast<B>, B>(x: [A; 27])
    ensures
        (Cast::<[B; 27]>::cast_spec(x))@.len() == 27,
        forall|i: int|
            0 <= i < 27 ==> (Cast::<[B; 27]>::cast_spec(x))@[i] == #[trigger] x@[i].cast_spec(),
{
}

/// Converting a length-28 array keeps the length and converts each element in place.
pub proof fn array_cast_elementwise_28<A: Copy + Cast<B>, B>(x: [A; 28])
    ensures
        (Cast::<[B; 28]>::cast_spec(x))@.len() == 28,
        forall|i: int|
            0 <= i < 28 ==> (Cast::<[B; 28]>::cast_spec(x))@[i] == #[trigger] x@[i].cast_spec(),
{
}

/// Converting a length-29 array keeps the length and converts each element in place.
pub proof fn array_cast_elementwise_29<A: Copy + Cast<B>, B>(x: [A; 29])
    ensures
        (Cast::<[B; 29]>::cast_spec(x))@.len() == 29,
        forall|i: int|
            0 <= i < 29 ==> (Cast::<[B; 29]>::cast_spec(x))@[i] == #[trigger] x@[i].cast_spec(),
{
}

/// Converting a length-30 array keeps the length and converts each element in place.
pub proof fn array_cast_elementwise_30<A: Copy + Cast<B>, B>(x: [A; 30])
    ensures
        (Cast::<[B; 30]>::cast_spec(x))@.len() == 30,
        forall|i: int|
            0 <= i < 30 ==> (Cast::<[B; 30]>::cast_spec(x))@[i] == #[trigger] x@[i].cast_spec(),
{
}

/// Converting a length-31 array keeps the length and converts each element in place.
pub proof fn array_cast_elementwise_31<A: Copy + Cast<B>, B>(x: [A; 31])
    ensures
        (Cast::<[B; 31]>::cast_spec(x))@.len() == 31,
        forall|i: int|
            0 <= i < 31 ==> (Cast::<[B; 31]>::cast_spec(x))@[i] == #[trigger] x@[i].cast_spec(),
{
}

/// Converting a length-32 array keeps the length and converts each element in place.
pub proof fn array_cast_elementwise_32<A: Copy + Cast<B>, B>(x: [A; 32])
    ensures
        (Cast::<[B; 32]>::cast_spec(x))@.len() == 32,
        forall|i: int|
            0 <= i < 32 ==> (Cast::<[B; 32]>::cast_spec(x))@[i] == #[trigger] x@[i].cast_spec(),
{
}

} // verus!
