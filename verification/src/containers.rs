//! The fixed-size containers: vectors of three and of four elements, and
//! the matrix of three rows of three.

use vstd::prelude::*;

verus! {

/// Three scalars in a fixed order.
#[derive(Clone, Copy, Debug, PartialEq)]
pub struct Vector3<T>(pub [T; 3]);

/// Four scalars in a fixed order.
#[derive(Clone, Copy, Debug, PartialEq)]
pub struct Vector4<T>(pub [T; 4]);

/// Three rows, each a `Vector3`.
#[derive(Clone, Copy, Debug, PartialEq)]
pub struct Matrix3X3<T>(pub [Vector3<T>; 3]);

impl<T> View for Vector3<T> {
    type V = Seq<T>;

    /// The elements, first to last.
    open spec fn view(&self) -> Seq<T> {
        self.0@
    }
}

impl<T> View for Vector4<T> {
    type V = Seq<T>;

    /// The elements, first to last.
    open spec fn view(&self) -> Seq<T> {
        self.0@
    }
}

impl<T> View for Matrix3X3<T> {
    type V = Seq<Seq<T>>;

    /// The rows, top to bottom, each as the sequence of its elements.
    open spec fn view(&self) -> Seq<Seq<T>> {
        Seq::new(3, |i: int| self.0@[i]@)
    }
}

/// Two vectors are equal exactly when their elements are.
pub proof fn vector3_equality_is_elementwise<T>(a: Vector3<T>, b: Vector3<T>)
    ensures
        a@.len() == 3,
        a == b <==> a@ == b@,
{
    if a@ == b@ {
        assert(a.0 =~= b.0);
    }
}

/// Two vectors are equal exactly when their elements are.
pub proof fn vector4_equality_is_elementwise<T>(a: Vector4<T>, b: Vector4<T>)
    ensures
        a@.len() == 4,
        a == b <==> a@ == b@,
{
    if a@ == b@ {
        assert(a.0 =~= b.0);
    }
}

/// Two matrices are equal exactly when their rows are.
pub proof fn matrix3x3_equality_is_rowwise<T>(a: Matrix3X3<T>, b: Matrix3X3<T>)
    ensures
        a@.len() == 3,
        forall|i: int| 0 <= i < 3 ==> (#[trigger] a@[i]).len() == 3,
        a == b <==> a@ == b@,
{
    if a@ == b@ {
        assert forall|i: int| 0 <= i < 3 implies a.0[i] == b.0[i] by {
            assert(a@[i] == b@[i]);
            vector3_equality_is_elementwise(a.0[i], b.0[i]);
        }
        assert(a.0 =~= b.0);
    }
}

} // verus!
