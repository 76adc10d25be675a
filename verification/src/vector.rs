//! What a space can do with its vectors.
//!
//! Each operation comes with a spec function of the same name and the
//! suffix `_spec`. It says, over views, what the operation computes; a space
//! defines it, and the operation's contract holds the result to it. A space
//! has no state, so none of them takes the space itself.

use vstd::prelude::*;

verus! {

/// Binds a vector type to the scalar type of its elements.
pub trait VectorSpace {
    type Scalar;

    type Vector;
}

/// Addition that returns a new vector.
pub trait VAdd {
    type Vector: View;

    /// The view of the sum, from the views of the operands.
    spec fn vadd_spec(l: <Self::Vector as View>::V, r: <Self::Vector as View>::V) -> <
        Self::Vector as View
    >::V;

    fn vadd(&self, l: &Self::Vector, r: &Self::Vector) -> (sum: Self::Vector)
        ensures
            sum@ == Self::vadd_spec(l@, r@),
    ;
}

/// Addition into the left operand.
pub trait VAddMut {
    type Vector: View;

    /// The view of the left operand after the addition, from the views of
    /// both operands before it.
    spec fn vadd_mut_spec(l: <Self::Vector as View>::V, r: <Self::Vector as View>::V) -> <
        Self::Vector as View
    >::V;

    fn vadd_mut(&self, l: &mut Self::Vector, r: &Self::Vector)
        ensures
            final(l)@ == Self::vadd_mut_spec(old(l)@, r@),
    ;
}

/// Scaling that returns a new vector.
pub trait VScale {
    type Scalar;

    type Vector: View;

    /// The view of the scaled vector, from the vector's view and the scalar.
    spec fn vscale_spec(vector: <Self::Vector as View>::V, scalar: Self::Scalar) -> <
        Self::Vector as View
    >::V;

    fn vscale(&self, vector: &Self::Vector, scalar: &Self::Scalar) -> (product: Self::Vector)
        ensures
            product@ == Self::vscale_spec(vector@, *scalar),
    ;
}

/// Scaling in place.
pub trait VScaleMut {
    type Scalar;

    type Vector: View;

    /// The view of the vector after the scaling, from its view before and
    /// the scalar.
    spec fn vscale_mut_spec(vector: <Self::Vector as View>::V, scalar: Self::Scalar) -> <
        Self::Vector as View
    >::V;

    fn vscale_mut(&self, vector: &mut Self::Vector, scalar: &Self::Scalar)
        ensures
            final(vector)@ == Self::vscale_mut_spec(old(vector)@, *scalar),
    ;
}

} // verus!
