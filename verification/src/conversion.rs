//! What is said of `From` and `Into`.
use vstd::prelude::*;

verus! {

/// Taken on trust from the documentation of the standard library: its
/// reflexive conversion, `From::from` of `impl<T> From<T> for T`, returns its
/// argument unchanged. With it, converting a value into its own type, by
/// `from` or by `into`, is known to leave the value as it is.
pub assume_specification<X>[ <X as std::convert::From<X>>::from ](x: X) -> (same: X)
    ensures
        same == x,
;

/// `to` is what `from` may convert into.
pub open spec fn converts<A: Into<B>, B>(from: A, to: B) -> bool {
    call_ensures(<A as Into<B>>::into, (from,), to)
}

} // verus!
