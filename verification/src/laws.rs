//! Laws of the elementwise operations.
//!
//! Most are stated over the sequences that the containers' views give, so
//! each of those holds of every container here, whatever its length.

use vstd::prelude::*;
use vstd::arithmetic::div_mod::{lemma_add_mod_noop, lemma_mul_mod_noop_left};
use vstd::arithmetic::mul::lemma_mul_is_distributive_add_other_way;
use crate::containers::Matrix3X3;
use crate::elementwise::{elementwise_sum, rowwise_sum, scaled};
use crate::identity::{AdditiveIdentity, MultiplicativeIdentity};
use crate::matrix_ops::{MAdd, MAddMut};
use crate::spaces::ThreeDimSpaceV2;
use crate::vector::{VAdd, VAddMut};

verus! {

/// The wrapping sum is the sum modulo 2^32: it is the plain sum wherever
/// that fits in a `u32`.
pub proof fn wrapping_sum_is_sum_mod(a: u32, b: u32)
    ensures
        a.wrapping_add(b) == (a + b) % 0x1_0000_0000,
        a + b <= u32::MAX ==> a.wrapping_add(b) == a + b,
{
}

/// The wrapping product is the product modulo 2^32: it is the plain product
/// wherever that fits in a `u32`.
pub proof fn wrapping_product_is_product_mod(a: u32, s: u32)
    ensures
        a.wrapping_mul(s) == (a * s) % 0x1_0000_0000,
        a * s <= u32::MAX ==> a.wrapping_mul(s) == a * s,
{
    assert(0 <= a * s) by (nonlinear_arith);
}

/// On scalars, multiplying a sum is adding the products.
pub proof fn scalar_product_distributes(a: u32, b: u32, s: u32)
    ensures
        a.wrapping_add(b).wrapping_mul(s) == a.wrapping_mul(s).wrapping_add(b.wrapping_mul(s)),
{
    let m: int = 0x1_0000_0000;
    wrapping_sum_is_sum_mod(a, b);
    wrapping_product_is_product_mod(a, s);
    wrapping_product_is_product_mod(b, s);
    wrapping_product_is_product_mod(a.wrapping_add(b), s);
    wrapping_sum_is_sum_mod(a.wrapping_mul(s), b.wrapping_mul(s));
    lemma_mul_mod_noop_left(a + b, s as int, m);
    lemma_add_mod_noop(a * s, b * s, m);
    lemma_mul_is_distributive_add_other_way(s as int, a as int, b as int);
}

/// Every element of a sum is the sum of the two elements at its place.
pub proof fn sum_is_elementwise(u: Seq<u32>, v: Seq<u32>, i: int)
    requires
        u.len() == v.len(),
        0 <= i < u.len(),
    ensures
        elementwise_sum(u, v).len() == u.len(),
        elementwise_sum(u, v)[i] == u[i].wrapping_add(v[i]),
        u[i] + v[i] <= u32::MAX ==> elementwise_sum(u, v)[i] == u[i] + v[i],
{
}

/// Addition is commutative.
pub proof fn sum_commutes(u: Seq<u32>, v: Seq<u32>)
    requires
        u.len() == v.len(),
    ensures
        elementwise_sum(u, v) == elementwise_sum(v, u),
{
    assert(elementwise_sum(u, v) =~= elementwise_sum(v, u));
}

/// Scaling distributes over addition.
pub proof fn scale_distributes_over_sum(u: Seq<u32>, v: Seq<u32>, s: u32)
    requires
        u.len() == v.len(),
    ensures
        scaled(elementwise_sum(u, v), s) == elementwise_sum(scaled(u, s), scaled(v, s)),
{
    assert forall|i: int| 0 <= i < u.len() implies scaled(elementwise_sum(u, v), s)[i]
        == elementwise_sum(scaled(u, s), scaled(v, s))[i] by {
        scalar_product_distributes(u[i], v[i], s);
    }
    assert(scaled(elementwise_sum(u, v), s) =~= elementwise_sum(scaled(u, s), scaled(v, s)));
}

/// Every row of a matrix sum is the vector sum of the two rows at its
/// place, whatever the other rows hold.
pub proof fn matrix_sum_is_rowwise(x: Seq<Seq<u32>>, y: Seq<Seq<u32>>, i: int)
    requires
        x.len() == y.len(),
        0 <= i < x.len(),
    ensures
        rowwise_sum(x, y).len() == x.len(),
        rowwise_sum(x, y)[i] == elementwise_sum(x[i], y[i]),
{
}

/// What `madd` and `madd_mut` make of two matrices is, row by row, what
/// `vadd` and `vadd_mut` make of their rows.
pub proof fn madd_is_rowwise_vadd(x: Matrix3X3<u32>, y: Matrix3X3<u32>, i: int)
    requires
        0 <= i < 3,
    ensures
        x@[i] == x.0[i]@,
        y@[i] == y.0[i]@,
        ThreeDimSpaceV2::madd_spec(x@, y@)[i] == ThreeDimSpaceV2::vadd_spec(x@[i], y@[i]),
        ThreeDimSpaceV2::madd_mut_spec(x@, y@)[i] == ThreeDimSpaceV2::vadd_mut_spec(x@[i], y@[i]),
{
}

/// Matrix addition is commutative.
pub proof fn matrix_sum_commutes(x: Seq<Seq<u32>>, y: Seq<Seq<u32>>)
    requires
        x.len() == y.len(),
        forall|i: int| 0 <= i < x.len() ==> x[i].len() == y[i].len(),
    ensures
        rowwise_sum(x, y) == rowwise_sum(y, x),
{
    assert forall|i: int| 0 <= i < x.len() implies rowwise_sum(x, y)[i] == rowwise_sum(y, x)[i] by {
        sum_commutes(x[i], y[i]);
    }
    assert(rowwise_sum(x, y) =~= rowwise_sum(y, x));
}

/// Adding the zero of `usize` changes nothing.
pub proof fn zero_is_neutral(x: usize)
    ensures
        x + usize::additive_identity_spec() == x,
        usize::additive_identity_spec() + x == x,
{
}

/// Multiplying by the one of `usize` changes nothing.
pub proof fn one_is_neutral(x: usize)
    ensures
        x * usize::multiplicative_identity_spec() == x,
        usize::multiplicative_identity_spec() * x == x,
{
}

} // verus!
