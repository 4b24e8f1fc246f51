//! The conversion capability: `Cast<T>` says that a value of `Self` converts
//! to a value of `T`, and `cast_spec` pins the exact value every conversion
//! must return. The transparent wrapper forwards conversion to its inner
//! value.

use vstd::prelude::*;

verus! {

/// A total conversion from `Self` to `T`. `cast_spec` gives the mathematical
/// value of the conversion; `cast` computes it and is proved to return
/// exactly that value, so every conversion is total and deterministic.
pub trait Cast<T>: Sized {
    /// The exact value that converting `self` to `T` yields.
    spec fn cast_spec(self) -> T;

    /// Converts `self` to `T`.
    fn cast(self) -> (r: T)
        ensures
            r == self.cast_spec(),
    ;
}

/// A transparent single-field wrapper standing for wrapping arithmetic.
/// For conversion it is a pass-through container: a `Wrapping<A>` converts
/// to a `Wrapping<B>` whenever `A` converts to `B`.
#[derive(Clone, Copy, PartialEq, Eq, Debug)]
pub struct Wrapping<T>(pub T);

impl<A: Cast<B>, B> Cast<Wrapping<B>> for Wrapping<A> {
    open spec fn cast_spec(self) -> Wrapping<B> {
        Wrapping(self.0.cast_spec())
    }

    fn cast(self) -> (r: Wrapping<B>) {
        Wrapping(self.0.cast())
    }
}

} // verus!
