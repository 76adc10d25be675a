//! The neutral elements of addition and of multiplication.
//!
//! Each comes with a spec function that names the value; the type defines
//! it, and the function's contract holds the result to it.

use vstd::prelude::*;

verus! {

/// A type with a zero: the value that addition leaves every other as it is.
pub trait AdditiveIdentity {
    type Output;

    /// The zero.
    spec fn additive_identity_spec() -> Self::Output;

    fn additive_identity() -> (zero: Self::Output)
        ensures
            zero == Self::additive_identity_spec(),
    ;
}

/// A type with a one: the value that multiplication leaves every other as
/// it is.
pub trait MultiplicativeIdentity {
    type Output;

    /// The one.
    spec fn multiplicative_identity_spec() -> Self::Output;

    fn multiplicative_identity() -> (one: Self::Output)
        ensures
            one == Self::multiplicative_identity_spec(),
    ;
}

impl AdditiveIdentity for usize {
    type Output = usize;

    open spec fn additive_identity_spec() -> usize {
        0
    }

    fn additive_identity() -> (zero: usize)
        ensures
            zero == 0,
    {
        0
    }
}

impl MultiplicativeIdentity for usize {
    type Output = usize;

    open spec fn multiplicative_identity_spec() -> usize {
        1
    }

    fn multiplicative_identity() -> (one: usize)
        ensures
            one == 1,
    {
        1
    }
}

} // verus!
