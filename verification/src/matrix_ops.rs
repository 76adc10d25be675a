//! What a space can do with its matrices.

use vstd::prelude::*;

verus! {

/// Addition that returns a new matrix.
pub trait MAdd {
    type Matrix: View;

    /// The view of the sum, from the views of the operands.
    spec fn madd_spec(lhs: <Self::Matrix as View>::V, rhs: <Self::Matrix as View>::V) -> <
        Self::Matrix as View
    >::V;

    fn madd(&self, lhs: &Self::Matrix, rhs: &Self::Matrix) -> (sum: Self::Matrix)
        ensures
            sum@ == Self::madd_spec(lhs@, rhs@),
    ;
}

/// Addition into the left operand.
pub trait MAddMut {
    type Matrix: View;

    /// The view of the left operand after the addition, from the views of
    /// both operands before it.
    spec fn madd_mut_spec(lhs: <Self::Matrix as View>::V, rhs: <Self::Matrix as View>::V) -> <
        Self::Matrix as View
    >::V;

    fn madd_mut(&self, lhs: &mut Self::Matrix, rhs: &Self::Matrix)
        ensures
            final(lhs)@ == Self::madd_mut_spec(old(lhs)@, rhs@),
    ;
}

} // verus!
