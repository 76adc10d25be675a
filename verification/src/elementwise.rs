//! Elementwise arithmetic on arrays of `u32`, for any length.
//!
//! Sums and products are those of `u32` itself: they wrap around past
//! `u32::MAX`, so every operation here is total.

use vstd::prelude::*;

verus! {

/// The sequence whose `i`-th element is `l[i] + r[i]`, wrapped into `u32`.
pub open spec fn elementwise_sum(l: Seq<u32>, r: Seq<u32>) -> Seq<u32>
    recommends
        l.len() == r.len(),
{
    Seq::new(l.len(), |i: int| l[i].wrapping_add(r[i]))
}

/// The sequence whose `i`-th element is `v[i] * s`, wrapped into `u32`.
pub open spec fn scaled(v: Seq<u32>, s: u32) -> Seq<u32> {
    Seq::new(v.len(), |i: int| v[i].wrapping_mul(s))
}

/// The rows `elementwise_sum(x[i], y[i])`, one for each row of `x`.
pub open spec fn rowwise_sum(x: Seq<Seq<u32>>, y: Seq<Seq<u32>>) -> Seq<Seq<u32>>
    recommends
        x.len() == y.len(),
{
    Seq::new(x.len(), |i: int| elementwise_sum(x[i], y[i]))
}

/// Adds `rhs` to `lhs` element by element, in place.
pub fn add_assign_elements<const N: usize>(lhs: &mut [u32; N], rhs: &[u32; N])
    ensures
        final(lhs)@ == elementwise_sum(old(lhs)@, rhs@),
{
    let mut i: usize = 0;
    while i < N
        invariant
            i <= N,
            forall|j: int| 0 <= j < i ==> lhs@[j] == old(lhs)@[j].wrapping_add(rhs@[j]),
            forall|j: int| i <= j < N ==> lhs@[j] == old(lhs)@[j],
        decreases N - i,
    {
        lhs[i] = lhs[i].wrapping_add(rhs[i]);
        i += 1;
    }
    assert(lhs@ =~= elementwise_sum(old(lhs)@, rhs@));
}

/// Multiplies every element of `vector` by `scalar`, in place.
pub fn mul_assign_elements<const N: usize>(vector: &mut [u32; N], scalar: u32)
    ensures
        final(vector)@ == scaled(old(vector)@, scalar),
{
    let mut i: usize = 0;
    while i < N
        invariant
            i <= N,
            forall|j: int| 0 <= j < i ==> vector@[j] == old(vector)@[j].wrapping_mul(scalar),
            forall|j: int| i <= j < N ==> vector@[j] == old(vector)@[j],
        decreases N - i,
    {
        vector[i] = vector[i].wrapping_mul(scalar);
        i += 1;
    }
    assert(vector@ =~= scaled(old(vector)@, scalar));
}

} // verus!
