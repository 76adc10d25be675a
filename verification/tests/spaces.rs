use vector_space::matrix_ops::{MAdd, MAddMut};
use vector_space::vector::{VAdd, VAddMut, VScale, VScaleMut};
use vector_space::{FourDimSpace, Matrix3X3, ThreeDimSpaceV2, Vector3, Vector4};

#[test]
fn three_dim_space() {
    let space = ThreeDimSpaceV2;
    let u = Vector3([1u32, 2u32, 3u32]);
    let v = Vector3([3u32, 6u32, 9u32]);
    let result = space.vadd(&u, &v);
    let expected = Vector3([4u32, 8u32, 12u32]);
    assert_eq!(result, expected);
}

#[test]
fn four_dim_space() {
    let space = FourDimSpace;
    let u = Vector4([2u32, 4u32, 6u32, 8u32]);
    let v = Vector4([3u32, 6u32, 9u32, 12u32]);
    let result = space.vadd(&u, &v);
    let expected = Vector4([5, 10, 15, 20]);
    assert_eq!(result, expected);
}

#[test]
fn matrix_add() {
    let space = ThreeDimSpaceV2;
    let x: Matrix3X3<u32> =
        Matrix3X3([Vector3([0, 1, 2]), Vector3([3, 4, 5]), Vector3([6, 7, 8])]);
    let y: Matrix3X3<u32> = Matrix3X3([
        Vector3([2, 4, 8]),
        Vector3([16, 32, 64]),
        Vector3([128, 256, 512]),
    ]);
    let result = space.madd(&x, &y);
    let expected: Matrix3X3<u32> = Matrix3X3([
        Vector3([2, 5, 10]),
        Vector3([19, 36, 69]),
        Vector3([134, 263, 520]),
    ]);
    println!("{:?}", result);
    assert_eq!(result, expected);
}

#[test]
fn vadd_leaves_its_operands_alone() {
    let space = ThreeDimSpaceV2;
    let u = Vector3([1u32, 2, 3]);
    let v = Vector3([3u32, 6, 9]);
    let _ = space.vadd(&u, &v);
    assert_eq!(u, Vector3([1, 2, 3]));
    assert_eq!(v, Vector3([3, 6, 9]));
}

#[test]
fn vadd_mut_writes_the_sum_into_the_left_operand() {
    let space = ThreeDimSpaceV2;
    let mut u = Vector3([1u32, 2, 3]);
    let v = Vector3([3u32, 6, 9]);
    space.vadd_mut(&mut u, &v);
    assert_eq!(u, Vector3([4, 8, 12]));
    assert_eq!(v, Vector3([3, 6, 9]));
}

#[test]
fn vadd_mut_agrees_with_vadd() {
    let space = FourDimSpace;
    let u = Vector4([10u32, 0, u32::MAX, 77]);
    let v = Vector4([5u32, 0, 2, 23]);
    let mut in_place = u;
    space.vadd_mut(&mut in_place, &v);
    assert_eq!(in_place, space.vadd(&u, &v));
    assert_eq!(in_place, Vector4([15, 0, 1, 100]));
}

#[test]
fn vadd_wraps_around() {
    let space = ThreeDimSpaceV2;
    let u = Vector3([u32::MAX, u32::MAX, 0x8000_0000]);
    let v = Vector3([1u32, u32::MAX, 0x8000_0000]);
    assert_eq!(space.vadd(&u, &v), Vector3([0, u32::MAX - 1, 0]));
}

#[test]
fn vadd_with_zero_vector_changes_nothing() {
    let space = ThreeDimSpaceV2;
    let u = Vector3([7u32, 0, u32::MAX]);
    let zero = Vector3([0u32, 0, 0]);
    assert_eq!(space.vadd(&u, &zero), u);
    assert_eq!(space.vadd(&zero, &u), u);
}

#[test]
fn vadd_is_elementwise() {
    let space = FourDimSpace;
    let u = Vector4([1u32, 0xffff_fff0, 300, 0]);
    let v = Vector4([2u32, 0x20, 400, u32::MAX]);
    let sum = space.vadd(&u, &v);
    for i in 0..4 {
        assert_eq!(sum.0[i], u.0[i].wrapping_add(v.0[i]));
    }
    assert_eq!(sum, Vector4([3, 0x10, 700, u32::MAX]));
}

#[test]
fn vadd_commutes() {
    let space = ThreeDimSpaceV2;
    let u = Vector3([1u32, 0xffff_ffff, 12345]);
    let v = Vector3([99u32, 2, 0xfff0_0000]);
    assert_eq!(space.vadd(&u, &v), space.vadd(&v, &u));
    assert_eq!(space.vadd(&u, &v), Vector3([100, 1, 0xfff0_3039]));
}

#[test]
fn vscale_multiplies_every_element() {
    let space = ThreeDimSpaceV2;
    let u = Vector3([1u32, 2, 3]);
    assert_eq!(space.vscale(&u, &7), Vector3([7, 14, 21]));
    assert_eq!(u, Vector3([1, 2, 3]));
}

#[test]
fn vscale_by_one_and_by_zero() {
    let space = ThreeDimSpaceV2;
    let u = Vector3([5u32, 0, u32::MAX]);
    assert_eq!(space.vscale(&u, &1), u);
    assert_eq!(space.vscale(&u, &0), Vector3([0, 0, 0]));
}

#[test]
fn vscale_wraps_around() {
    let space = ThreeDimSpaceV2;
    let u = Vector3([0x8000_0000u32, 0x1_0001, u32::MAX]);
    assert_eq!(space.vscale(&u, &2), Vector3([0, 0x2_0002, u32::MAX - 1]));
    assert_eq!(
        space.vscale(&u, &0x1_0000),
        Vector3([0, 0x1_0000, 0xffff_0000])
    );
}

#[test]
fn vscale_mut_scales_in_place() {
    let space = FourDimSpace;
    let mut u = Vector4([2u32, 4, 6, 8]);
    space.vscale_mut(&mut u, &3);
    assert_eq!(u, Vector4([6, 12, 18, 24]));
}

#[test]
fn vscale_mut_agrees_with_vscale() {
    let space = ThreeDimSpaceV2;
    let u = Vector3([3u32, 0xdead_beef, 0]);
    let mut in_place = u;
    space.vscale_mut(&mut in_place, &0x1234_5678);
    assert_eq!(in_place, space.vscale(&u, &0x1234_5678));
}

#[test]
fn four_dim_vscale() {
    let space = FourDimSpace;
    let u = Vector4([1u32, 10, 100, 1000]);
    assert_eq!(space.vscale(&u, &5), Vector4([5, 50, 500, 5000]));
}

#[test]
fn vscale_distributes_over_vadd() {
    let space = ThreeDimSpaceV2;
    let u = Vector3([1u32, 0xffff_ffff, 0x8000_0001]);
    let v = Vector3([2u32, 5, 0x8000_0001]);
    let s = 0x0001_0003u32;
    let scaled_sum = space.vscale(&space.vadd(&u, &v), &s);
    let sum_of_scaled = space.vadd(&space.vscale(&u, &s), &space.vscale(&v, &s));
    assert_eq!(scaled_sum, sum_of_scaled);
    assert_eq!(scaled_sum, Vector3([0x0003_0009, 0x0004_000c, 0x0002_0006]));
}

#[test]
fn four_dim_vscale_distributes_over_vadd() {
    let space = FourDimSpace;
    let u = Vector4([2u32, 4, 6, 8]);
    let v = Vector4([3u32, 6, 9, 12]);
    let scaled_sum = space.vscale(&space.vadd(&u, &v), &4);
    let sum_of_scaled = space.vadd(&space.vscale(&u, &4), &space.vscale(&v, &4));
    assert_eq!(scaled_sum, sum_of_scaled);
    assert_eq!(scaled_sum, Vector4([20, 40, 60, 80]));
}

#[test]
fn madd_is_rowwise_vadd() {
    let space = ThreeDimSpaceV2;
    let x = Matrix3X3([
        Vector3([0u32, 1, 2]),
        Vector3([u32::MAX, 4, 5]),
        Vector3([6, 7, 8]),
    ]);
    let y = Matrix3X3([
        Vector3([2u32, 4, 8]),
        Vector3([16, 32, 64]),
        Vector3([128, 256, u32::MAX]),
    ]);
    let sum = space.madd(&x, &y);
    for i in 0..3 {
        assert_eq!(sum.0[i], space.vadd(&x.0[i], &y.0[i]));
    }
    assert_eq!(
        sum,
        Matrix3X3([
            Vector3([2, 5, 10]),
            Vector3([15, 36, 69]),
            Vector3([134, 263, 7]),
        ])
    );
}

#[test]
fn madd_commutes() {
    let space = ThreeDimSpaceV2;
    let x = Matrix3X3([
        Vector3([9u32, 8, 7]),
        Vector3([6, 5, 4]),
        Vector3([3, 2, 1]),
    ]);
    let y = Matrix3X3([
        Vector3([1u32, 0, 0]),
        Vector3([0, u32::MAX, 0]),
        Vector3([0, 0, 1]),
    ]);
    assert_eq!(space.madd(&x, &y), space.madd(&y, &x));
}

#[test]
fn madd_mut_writes_the_sum_into_the_left_operand() {
    let space = ThreeDimSpaceV2;
    let mut x = Matrix3X3([
        Vector3([0u32, 1, 2]),
        Vector3([3, 4, 5]),
        Vector3([6, 7, 8]),
    ]);
    let y = Matrix3X3([
        Vector3([2u32, 4, 8]),
        Vector3([16, 32, 64]),
        Vector3([128, 256, 512]),
    ]);
    let before = x;
    space.madd_mut(&mut x, &y);
    assert_eq!(x, space.madd(&before, &y));
    assert_eq!(
        x,
        Matrix3X3([
            Vector3([2, 5, 10]),
            Vector3([19, 36, 69]),
            Vector3([134, 263, 520]),
        ])
    );
    assert_eq!(
        y,
        Matrix3X3([
            Vector3([2, 4, 8]),
            Vector3([16, 32, 64]),
            Vector3([128, 256, 512]),
        ])
    );
}
