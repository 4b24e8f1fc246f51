//! A numeric conversion library: one generic `cast` operation that converts
//! a value of one primitive-like type into a value of another, with the same
//! truncating semantics as a native numeric cast, proved against that
//! semantics.
//!
//! The conversion registry is the trait [`Cast`]: one capability per ordered
//! pair of supported types. It covers every pair of the supported integer
//! types, each integer type paired with `bool`, the transparent [`Wrapping`]
//! container over any convertible inner type, and fixed-size arrays of
//! length 0 through 32 over any convertible element type. Every conversion
//! is total: no failure path exists, and narrowing silently truncates.

mod arrays;
mod cast;
pub mod laws;
mod scalar;

pub use cast::Cast;
pub use cast::Wrapping;

use vstd::prelude::*;

verus! {

/// Converts `a` into the target type chosen by the caller, through the one
/// `Cast` capability defined for that pair of types.
pub fn cast<A, B>(a: A) -> (b: B) where A: Cast<B>
    ensures
        b == a.cast_spec(),
{
    a.cast()
}

} // verus!
