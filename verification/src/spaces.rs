//! The spaces: stateless markers that carry the operations.
//!
//! A space is bound to one vector type and to `u32` as its scalar type. Its
//! operations take and give that vector type only, so operands of another
//! shape are refused when the caller is compiled.

use vstd::prelude::*;
use crate::containers::{Matrix3X3, Vector3, Vector4};
use crate::elementwise::{
    add_assign_elements, elementwise_sum, mul_assign_elements, rowwise_sum, scaled,
};
use crate::matrix_ops::{MAdd, MAddMut};
use crate::vector::{VAdd, VAddMut, VScale, VScaleMut, VectorSpace};

verus! {

/// The space of `Vector3<u32>` and `Matrix3X3<u32>` over `u32`.
pub struct ThreeDimSpaceV2;

/// The space of `Vector4<u32>` over `u32`.
pub struct FourDimSpace;

impl VectorSpace for ThreeDimSpaceV2 {
    type Scalar = u32;

    type Vector = Vector3<u32>;
}

impl VScaleMut for ThreeDimSpaceV2 {
    type Vector = <ThreeDimSpaceV2 as VectorSpace>::Vector;

    type Scalar = <ThreeDimSpaceV2 as VectorSpace>::Scalar;

    open spec fn vscale_mut_spec(vector: Seq<u32>, scalar: u32) -> Seq<u32> {
        scaled(vector, scalar)
    }

    /// Multiplies every element of `vector` by `scalar`, wrapping around.
    fn vscale_mut(&self, vector: &mut Self::Vector, scalar: &Self::Scalar)
        ensures
            final(vector)@ == scaled(old(vector)@, *scalar),
            forall|i: int|
                0 <= i < 3 ==> final(vector)@[i] == old(vector)@[i].wrapping_mul(*scalar),
    {
        mul_assign_elements(&mut vector.0, *scalar);
    }
}

impl VScale for ThreeDimSpaceV2 {
    type Vector = <ThreeDimSpaceV2 as VectorSpace>::Vector;

    type Scalar = <ThreeDimSpaceV2 as VectorSpace>::Scalar;

    open spec fn vscale_spec(vector: Seq<u32>, scalar: u32) -> Seq<u32> {
        scaled(vector, scalar)
    }

    /// Returns `vector` with every element multiplied by `scalar`, wrapping
    /// around.
    fn vscale(&self, vector: &Self::Vector, scalar: &Self::Scalar) -> (product: Self::Vector)
        ensures
            product@ == scaled(vector@, *scalar),
            forall|i: int| 0 <= i < 3 ==> product@[i] == vector@[i].wrapping_mul(*scalar),
    {
        let mut buf = *vector;
        self.vscale_mut(&mut buf, scalar);
        buf
    }
}

impl VAddMut for ThreeDimSpaceV2 {
    type Vector = <ThreeDimSpaceV2 as VectorSpace>::Vector;

    open spec fn vadd_mut_spec(l: Seq<u32>, r: Seq<u32>) -> Seq<u32> {
        elementwise_sum(l, r)
    }

    /// Adds to every element of `lhs` the element of `rhs` at its place,
    /// wrapping around.
    fn vadd_mut(&self, lhs: &mut Self::Vector, rhs: &Self::Vector)
        ensures
            final(lhs)@ == elementwise_sum(old(lhs)@, rhs@),
            forall|i: int| 0 <= i < 3 ==> final(lhs)@[i] == old(lhs)@[i].wrapping_add(rhs@[i]),
    {
        add_assign_elements(&mut lhs.0, &rhs.0);
    }
}

impl VAdd for ThreeDimSpaceV2 {
    type Vector = <ThreeDimSpaceV2 as VectorSpace>::Vector;

    open spec fn vadd_spec(l: Seq<u32>, r: Seq<u32>) -> Seq<u32> {
        elementwise_sum(l, r)
    }

    /// Returns the vector whose every element is the sum of the elements of
    /// `lhs` and `rhs` at its place, wrapping around.
    fn vadd(&self, lhs: &Self::Vector, rhs: &Self::Vector) -> (sum: Self::Vector)
        ensures
            sum@ == elementwise_sum(lhs@, rhs@),
            forall|i: int| 0 <= i < 3 ==> sum@[i] == lhs@[i].wrapping_add(rhs@[i]),
    {
        let mut temp = *lhs;
        self.vadd_mut(&mut temp, rhs);
        temp
    }
}

impl MAddMut for ThreeDimSpaceV2 {
    type Matrix = Matrix3X3<u32>;

    open spec fn madd_mut_spec(lhs: Seq<Seq<u32>>, rhs: Seq<Seq<u32>>) -> Seq<Seq<u32>> {
        rowwise_sum(lhs, rhs)
    }

    /// Adds to every row of `lhs` the row of `rhs` at its place, as
    /// `vadd_mut` adds two vectors.
    fn madd_mut(&self, lhs: &mut Matrix3X3<u32>, rhs: &Matrix3X3<u32>)
        ensures
            final(lhs)@ == rowwise_sum(old(lhs)@, rhs@),
            forall|i: int|
                0 <= i < 3 ==> final(lhs)@[i] == Self::vadd_mut_spec(old(lhs)@[i], rhs@[i]),
    {
        let mut i: usize = 0;
        while i < 3
            invariant
                i <= 3,
                forall|k: int|
                    0 <= k < i ==> lhs.0@[k]@ == elementwise_sum(old(lhs).0@[k]@, rhs.0@[k]@),
                forall|k: int| i <= k < 3 ==> lhs.0@[k] == old(lhs).0@[k],
            decreases 3 - i,
        {
            self.vadd_mut(&mut lhs.0[i], &rhs.0[i]);
            i += 1;
        }
        assert(lhs@ =~= rowwise_sum(old(lhs)@, rhs@));
    }
}

impl MAdd for ThreeDimSpaceV2 {
    type Matrix = Matrix3X3<u32>;

    open spec fn madd_spec(lhs: Seq<Seq<u32>>, rhs: Seq<Seq<u32>>) -> Seq<Seq<u32>> {
        rowwise_sum(lhs, rhs)
    }

    /// Returns the matrix whose every row is the sum of the rows of `lhs`
    /// and `rhs` at its place, as `vadd` adds two vectors.
    fn madd(&self, lhs: &Matrix3X3<u32>, rhs: &Matrix3X3<u32>) -> (sum: Matrix3X3<u32>)
        ensures
            sum@ == rowwise_sum(lhs@, rhs@),
            forall|i: int| 0 <= i < 3 ==> sum@[i] == Self::vadd_spec(lhs@[i], rhs@[i]),
    {
        let mut temp = *lhs;
        self.madd_mut(&mut temp, rhs);
        temp
    }
}

impl VectorSpace for FourDimSpace {
    type Scalar = u32;

    type Vector = Vector4<u32>;
}

impl VScaleMut for FourDimSpace {
    type Vector = <FourDimSpace as VectorSpace>::Vector;

    type Scalar = <FourDimSpace as VectorSpace>::Scalar;

    open spec fn vscale_mut_spec(vector: Seq<u32>, scalar: u32) -> Seq<u32> {
        scaled(vector, scalar)
    }

    /// Multiplies every element of `vector` by `scalar`, wrapping around.
    fn vscale_mut(&self, vector: &mut Self::Vector, scalar: &Self::Scalar)
        ensures
            final(vector)@ == scaled(old(vector)@, *scalar),
            forall|i: int|
                0 <= i < 4 ==> final(vector)@[i] == old(vector)@[i].wrapping_mul(*scalar),
    {
        mul_assign_elements(&mut vector.0, *scalar);
    }
}

impl VScale for FourDimSpace {
    type Vector = <FourDimSpace as VectorSpace>::Vector;

    type Scalar = <FourDimSpace as VectorSpace>::Scalar;

    open spec fn vscale_spec(vector: Seq<u32>, scalar: u32) -> Seq<u32> {
        scaled(vector, scalar)
    }

    /// Returns `vector` with every element multiplied by `scalar`, wrapping
    /// around.
    fn vscale(&self, vector: &Self::Vector, scalar: &Self::Scalar) -> (product: Self::Vector)
        ensures
            product@ == scaled(vector@, *scalar),
            forall|i: int| 0 <= i < 4 ==> product@[i] == vector@[i].wrapping_mul(*scalar),
    {
        let mut buf = *vector;
        self.vscale_mut(&mut buf, scalar);
        buf
    }
}

impl VAddMut for FourDimSpace {
    type Vector = <FourDimSpace as VectorSpace>::Vector;

    open spec fn vadd_mut_spec(l: Seq<u32>, r: Seq<u32>) -> Seq<u32> {
        elementwise_sum(l, r)
    }

    /// Adds to every element of `lhs` the element of `rhs` at its place,
    /// wrapping around.
    fn vadd_mut(&self, lhs: &mut Self::Vector, rhs: &Self::Vector)
        ensures
            final(lhs)@ == elementwise_sum(old(lhs)@, rhs@),
            forall|i: int| 0 <= i < 4 ==> final(lhs)@[i] == old(lhs)@[i].wrapping_add(rhs@[i]),
    {
        add_assign_elements(&mut lhs.0, &rhs.0);
    }
}

impl VAdd for FourDimSpace {
    type Vector = <FourDimSpace as VectorSpace>::Vector;

    open spec fn vadd_spec(l: Seq<u32>, r: Seq<u32>) -> Seq<u32> {
        elementwise_sum(l, r)
    }

    /// Returns the vector whose every element is the sum of the elements of
    /// `lhs` and `rhs` at its place, wrapping around.
    fn vadd(&self, lhs: &Self::Vector, rhs: &Self::Vector) -> (sum: Self::Vector)
        ensures
            sum@ == elementwise_sum(lhs@, rhs@),
            forall|i: int| 0 <= i < 4 ==> sum@[i] == lhs@[i].wrapping_add(rhs@[i]),
    {
        let mut temp = *lhs;
        self.vadd_mut(&mut temp, rhs);
        temp
    }
}

} // verus!
