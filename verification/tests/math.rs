use citro3d::fvec::{FVec, FVec3, FVec4};
use citro3d::laws::{
    law_diagonal3_add_identity, law_diagonal4_sub_identity, law_splat_add, law_splat_div,
    law_splat_neg, law_splat_scale, law_splat_sub, law_transpose_involution,
};
use citro3d::matrix::{Matrix, Matrix3, Matrix4};
use citro3d::projection::{AspectRatio, ClipPlanes, CoordinateOrientation, ScreenOrientation, StereoDisplacement};
use citro3d::{FQuat, IVec};

fn b(v: f32) -> u32 {
    v.to_bits()
}

#[test]
fn fvec3() {
    let l = FVec3::splat(b(1.0));
    let r = FVec3::splat(b(2.0));
    let eps = FVec3::default_epsilon();

    assert!(l.add(&r).abs_diff_eq(&FVec3::splat(b(3.0)), eps));
    assert!(l.sub(&r).abs_diff_eq(&FVec3::splat(b(-1.0)), eps));
    assert!(l.neg().abs_diff_eq(&FVec3::splat(b(-1.0)), eps));
    assert!(l.mul(b(1.5)).abs_diff_eq(&FVec3::splat(b(1.5)), eps));
    assert!(l.div(b(2.0)).abs_diff_eq(&FVec3::splat(b(0.5)), eps));
}

#[test]
fn fvec4() {
    let l = FVec4::splat(b(1.0));
    let r = FVec4::splat(b(2.0));
    let eps = FVec4::default_epsilon();

    assert!(l.add(&r).abs_diff_eq(&FVec4::splat(b(3.0)), eps));
    assert!(l.sub(&r).abs_diff_eq(&FVec4::splat(b(-1.0)), eps));
    assert!(l.neg().abs_diff_eq(&FVec4::splat(b(-1.0)), eps));
    assert!(l.mul(b(1.5)).abs_diff_eq(&FVec4::splat(b(1.5)), eps));
    assert!(l.div(b(2.0)).abs_diff_eq(&FVec4::splat(b(0.5)), eps));
}

#[test]
fn matrix3() {
    let l = Matrix3::diagonal(b(1.0), b(2.0), b(3.0));
    let r = Matrix3::identity();
    let eps = Matrix3::default_epsilon();

    assert!(l.mul(&r).abs_diff_eq(&l, eps));
    assert!(l.add(&r).abs_diff_eq(&Matrix3::diagonal(b(2.0), b(3.0), b(4.0)), eps));
    assert!(l.sub(&r).abs_diff_eq(&Matrix3::diagonal(b(0.0), b(1.0), b(2.0)), eps));
}

#[test]
fn matrix4() {
    let l = Matrix4::diagonal(b(1.0), b(2.0), b(3.0), b(4.0));
    let r = Matrix4::identity();
    let eps = Matrix4::default_epsilon();

    assert!(l.mul(&r).abs_diff_eq(&l, eps));
    assert!(l.add(&r).abs_diff_eq(&Matrix4::diagonal(b(2.0), b(3.0), b(4.0), b(5.0)), eps));
    assert!(l.sub(&r).abs_diff_eq(&Matrix4::diagonal(b(0.0), b(1.0), b(2.0), b(3.0)), eps));
}

#[test]
fn splat_laws_concrete() {
    let s: FVec<3> = law_splat_add(b(1.5), b(2.25));
    assert_eq!(s, FVec3::splat(b(3.75)));
    let s: FVec<4> = law_splat_sub(b(1.5), b(0.25));
    assert_eq!(s, FVec4::splat(b(1.25)));
    let s: FVec<3> = law_splat_neg(b(2.0));
    assert_eq!(s, FVec3::splat(b(-2.0)));
    let s: FVec<4> = law_splat_scale(b(2.0), b(1.5));
    assert_eq!(s, FVec4::splat(b(3.0)));
    let s: FVec<3> = law_splat_div(b(1.0), b(2.0));
    assert_eq!(s, FVec3::splat(b(0.5)));
}

#[test]
fn identity_mul_both_sides() {
    let m = Matrix4::diagonal(b(1.25), b(-2.0), b(3.5), b(4.0));
    let i = Matrix4::identity();
    assert_eq!(i.mul(&m), m);
    assert_eq!(m.mul(&i), m);
}

#[test]
fn diagonal_identity_laws_concrete() {
    let s = law_diagonal3_add_identity(b(1.0), b(2.0), b(3.0));
    assert_eq!(s, Matrix3::diagonal(b(2.0), b(3.0), b(4.0)));
    let s = law_diagonal4_sub_identity(b(1.0), b(2.0), b(3.0), b(4.0));
    assert_eq!(s, Matrix4::diagonal(b(0.0), b(1.0), b(2.0), b(3.0)));
}

#[test]
fn transpose_round_trip() {
    let mut cells = [0u32; 16];
    for (k, cell) in cells.iter_mut().enumerate() {
        *cell = b(k as f32);
    }
    let m: Matrix<4, 3> = Matrix::from_raw(cells);
    let t = m.transpose();
    assert_eq!(t.get(0, 1), m.get(1, 0));
    assert_eq!(t.get(2, 3), m.get(3, 2));
    let back = law_transpose_involution(&m);
    assert_eq!(back, m);
}

#[test]
fn equality_ignores_padding() {
    let mut a = [0u32; 16];
    let mut c = [0u32; 16];
    for i in 0..4 {
        for j in 0..3 {
            let v = b((i * 3 + j) as f32);
            a[i * 4 + 3 - j] = v;
            c[i * 4 + 3 - j] = v;
        }
        // the leading slot of each row is padding for a 4x3 matrix
        a[i * 4] = b(77.0);
        c[i * 4] = b(-55.5);
    }
    let ma: Matrix<4, 3> = Matrix::from_raw(a);
    let mc: Matrix<4, 3> = Matrix::from_raw(c);
    assert_eq!(ma, mc);
    assert_ne!(ma, Matrix::<4, 3>::zero());
}

#[test]
fn inverse_of_diagonal() {
    let m = Matrix4::diagonal(b(1.0), b(2.0), b(4.0), b(8.0));
    let inv = match m.inverse() {
        Ok(inv) => inv,
        Err(_) => panic!("a diagonal matrix with nonzero entries must invert"),
    };
    let eps = Matrix4::default_epsilon();
    assert!(inv.mul(&m).abs_diff_eq(&Matrix4::identity(), eps));
    assert!(inv.abs_diff_eq(&Matrix4::diagonal(b(1.0), b(0.5), b(0.25), b(0.125)), eps));

    let m3 = Matrix3::diagonal(b(2.0), b(4.0), b(5.0));
    let inv3 = match m3.inverse() {
        Ok(inv3) => inv3,
        Err(_) => panic!("a diagonal matrix with nonzero entries must invert"),
    };
    assert!(inv3.mul(&m3).abs_diff_eq(&Matrix3::identity(), Matrix3::default_epsilon()));
}

#[test]
fn inverse_of_singular_fails_unchanged() {
    let z = Matrix3::zero();
    match z.inverse() {
        Ok(_) => panic!("the zero matrix must not invert"),
        Err(back) => assert_eq!(back, Matrix3::zero()),
    }
    let m = Matrix4::diagonal(b(1.0), b(2.0), b(0.0), b(3.0));
    match m.inverse() {
        Ok(_) => panic!("a matrix with a zero determinant must not invert"),
        Err(back) => assert_eq!(back, m),
    }
}

#[test]
fn translate_writes_w_column() {
    let mut m = Matrix4::identity();
    m.translate(b(1.0), b(2.0), b(3.0));
    let raw = m.into_raw();
    // the w column lives in the leading slot of each row
    assert_eq!(raw[0], b(1.0));
    assert_eq!(raw[4], b(2.0));
    assert_eq!(raw[8], b(3.0));
    assert_eq!(raw[12], b(1.0));
}

#[test]
fn scale_multiplies_columns() {
    let mut m = Matrix4::identity();
    m.scale(b(2.0), b(3.0), b(4.0));
    let eps = Matrix4::default_epsilon();
    assert!(m.abs_diff_eq(&Matrix4::diagonal(b(2.0), b(3.0), b(4.0), b(1.0)), eps));
}

#[test]
fn rotate_quarter_turns() {
    // a quarter turn about Z: sin = 1, cos = 0
    let mut m = Matrix4::identity();
    m.rotate_z(b(1.0), b(0.0));
    let eps = Matrix4::default_epsilon();
    // columns x and y of the identity are recombined
    assert_eq!(m.get(1, 0), b(1.0));
    assert_eq!(m.get(0, 1), b(-1.0));
    assert!(m.abs_diff_eq(&Matrix4::identity(), eps) == false);

    let mut mx = Matrix4::identity();
    mx.rotate_x(b(1.0), b(0.0));
    assert_eq!(mx.get(2, 1), b(1.0));
    assert_eq!(mx.get(1, 2), b(-1.0));

    let mut my = Matrix4::identity();
    my.rotate_y(b(1.0), b(0.0));
    assert_eq!(my.get(0, 2), b(1.0));
    assert_eq!(my.get(2, 0), b(-1.0));
}

#[test]
fn rotate_about_z_axis() {
    // a quarter turn about the unit z axis equals the dedicated z rotation
    let z_axis = FVec3::new(b(0.0), b(0.0), b(1.0));
    let mut m = Matrix4::identity();
    m.rotate(&z_axis, b(1.0), b(0.0));
    let mut expected = Matrix4::identity();
    expected.rotate_z(b(1.0), b(0.0));
    assert!(m.abs_diff_eq(&expected, Matrix4::default_epsilon()));
    assert_eq!(m.get(1, 0), b(1.0));
}

#[test]
fn looking_at_axis_aligned() {
    let side = FVec3::new(b(1.0), b(0.0), b(0.0));
    let up = FVec3::new(b(0.0), b(1.0), b(0.0));
    let forward = FVec3::new(b(0.0), b(0.0), b(1.0));
    let position = FVec3::new(b(0.0), b(0.0), b(0.0));
    let m = Matrix4::looking_at_basis(&side, &up, &forward, &position, CoordinateOrientation::RightHanded);
    assert_eq!(m.get(0, 0), b(1.0));
    assert_eq!(m.get(1, 1), b(1.0));
    assert_eq!(m.get(2, 2), b(-1.0));
    assert_eq!(m.get(3, 3), b(1.0));

    let lh = Matrix4::looking_at_basis(&side, &up, &forward, &position, CoordinateOrientation::LeftHanded);
    assert_eq!(lh.get(2, 2), b(1.0));
}

#[test]
fn vector_products() {
    let m = Matrix3::diagonal(b(2.0), b(3.0), b(4.0));
    let v = FVec3::new(b(1.0), b(1.0), b(1.0));
    assert_eq!(m.mul_fvec(&v), FVec3::new(b(2.0), b(3.0), b(4.0)));

    let m4 = Matrix4::diagonal(b(2.0), b(3.0), b(4.0), b(5.0));
    let v4 = FVec4::new(b(1.0), b(1.0), b(1.0), b(1.0));
    assert_eq!(m4.mul_fvec(&v4), FVec4::new(b(2.0), b(3.0), b(4.0), b(5.0)));

    // an affine 4x3 block: identity rotation with translation (5, 6, 7) in
    // the leading slots, and 1 in the last row's leading slot
    let mut cells = [0u32; 16];
    cells[3] = b(1.0);
    cells[6] = b(1.0);
    cells[9] = b(1.0);
    cells[0] = b(5.0);
    cells[4] = b(6.0);
    cells[8] = b(7.0);
    cells[12] = b(1.0);
    let aff: Matrix<4, 3> = Matrix::from_raw(cells);
    let p = FVec3::new(b(1.0), b(2.0), b(3.0));
    assert_eq!(aff.mul_fvec_h(&p), FVec4::new(b(6.0), b(8.0), b(10.0), b(1.0)));
}

#[test]
fn dot_and_cross() {
    let a = FVec3::new(b(1.0), b(2.0), b(3.0));
    let c = FVec3::new(b(4.0), b(5.0), b(6.0));
    assert_eq!(a.dot(&c), b(32.0));
    assert_eq!(a.cross(&c), FVec3::new(b(-3.0), b(6.0), b(-3.0)));
}

#[test]
fn approximate_equality_tolerance() {
    let eps = FVec3::default_epsilon();
    let one = FVec3::splat(b(1.0));
    assert!(one.abs_diff_eq(&FVec3::splat(b(1.0001)), eps));
    assert!(!one.abs_diff_eq(&FVec3::splat(b(1.1)), eps));
}

#[test]
fn raw_layout_is_reversed() {
    let m = Matrix4::diagonal(b(1.0), b(2.0), b(3.0), b(4.0));
    let raw = m.into_raw();
    // logical (i, i) lives in slot 4 * i + 3 - i
    assert_eq!(raw[3], b(1.0));
    assert_eq!(raw[6], b(2.0));
    assert_eq!(raw[9], b(3.0));
    assert_eq!(raw[12], b(4.0));
    assert_eq!(raw[0], 0);
}

#[test]
fn ivec_packs_bytes() {
    let v = IVec::new(1, 2, 3, 4);
    assert_eq!(v.into_raw(), 0x0403_0201);
    assert_eq!(v.x(), 1);
    assert_eq!(v.y(), 2);
    assert_eq!(v.z(), 3);
    assert_eq!(v.w(), 4);
}

#[test]
fn fquat_storage_order() {
    let q = FQuat::new(b(1.0), b(2.0), b(3.0), b(4.0));
    assert_eq!(q.into_raw(), [b(4.0), b(3.0), b(2.0), b(1.0)]);
}

#[test]
fn orthographic_box() {
    let cp = ClipPlanes {
        left: b(0.0),
        right: b(2.0),
        bottom: b(0.0),
        top: b(2.0),
    };
    let m = Matrix4::orthographic(cp, b(1.0), b(3.0), CoordinateOrientation::RightHanded);
    assert_eq!(m.get(0, 0), b(1.0));
    assert_eq!(m.get(0, 3), b(-1.0));
    assert_eq!(m.get(1, 1), b(1.0));
    assert_eq!(m.get(1, 3), b(-1.0));
    assert_eq!(m.get(2, 2), b(-1.0));
    assert_eq!(m.get(2, 3), b(-2.0));
    assert_eq!(m.get(3, 3), b(1.0));
    let lh = Matrix4::orthographic(cp, b(1.0), b(3.0), CoordinateOrientation::LeftHanded);
    assert_eq!(lh.get(2, 2), b(1.0));
}

#[test]
fn perspective_frustum() {
    let aspect = AspectRatio::from_ratio(b(1.0));
    let m = Matrix4::perspective(b(1.0), aspect, b(1.0), b(3.0), CoordinateOrientation::RightHanded);
    assert_eq!(m.get(0, 0), b(1.0));
    assert_eq!(m.get(1, 1), b(1.0));
    assert_eq!(m.get(2, 2), b(-2.0));
    assert_eq!(m.get(2, 3), b(-3.0));
    assert_eq!(m.get(3, 2), b(-1.0));
    assert_eq!(m.get(3, 3), b(0.0));
}

#[test]
fn aspect_ratio_from_dimensions() {
    let r = AspectRatio::from_width_height(b(400.0), b(240.0));
    assert_eq!(r.ratio(), (400.0f32 / 240.0f32).to_bits());
}

#[test]
fn stereo_pair_and_shear() {
    let (left, right) = StereoDisplacement::new_pair(b(2.0), b(4.0));
    assert_eq!(left.displacement, b(-1.0));
    assert_eq!(right.displacement, b(1.0));
    assert_eq!(left.screen_depth, b(4.0));

    let aspect = AspectRatio::from_ratio(b(1.0));
    let mut m = Matrix4::perspective(b(1.0), aspect, b(1.0), b(3.0), CoordinateOrientation::RightHanded);
    m.apply_stereo(right);
    assert_eq!(m.get(0, 2), b(0.25));
    assert_eq!(m.get(1, 1), b(1.0));
}

#[test]
fn screen_rotation_quarter_turn() {
    let mut m = Matrix4::identity();
    m.apply_screen_rotation(ScreenOrientation::Rotated);
    assert_eq!(m.get(0, 1), b(-1.0));
    assert_eq!(m.get(1, 0), b(1.0));
    assert_eq!(m.get(2, 2), b(1.0));
    assert_eq!(m.get(3, 3), b(1.0));

    let mut u = Matrix4::identity();
    u.apply_screen_rotation(ScreenOrientation::Upright);
    assert_eq!(u, Matrix4::identity());
}

#[test]
fn nan_compares_unequal_to_itself() {
    let n = FVec3::splat(f32::NAN.to_bits());
    assert_ne!(n, n);
    assert!(!n.abs_diff_eq(&n, FVec3::default_epsilon()));

    // an infinity entry breaks the identity-multiplication law: the zero
    // rows of the identity multiply it into a NaN
    let m = Matrix3::diagonal(b(1.0), f32::INFINITY.to_bits(), b(1.0));
    let p = Matrix3::identity().mul(&m);
    assert_ne!(p, p);
}
