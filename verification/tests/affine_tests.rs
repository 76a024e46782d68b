use agb_affine::affine::{AffineMatrix, AffineMatrixObject, OverflowError};
use agb_affine::fixed::{Fixed, Narrow, Vec2};

fn vec2_int(x: i32, y: i32) -> Vec2 {
    Vec2::new(Fixed::from_int(x), Fixed::from_int(y))
}

fn vec2_raw(x: i32, y: i32) -> Vec2 {
    Vec2::new(Fixed::from_raw(x), Fixed::from_raw(y))
}

fn narrow_at(bytes: &[u8], off: usize) -> i16 {
    i16::from_le_bytes([bytes[off], bytes[off + 1]])
}

fn object_coeffs(m: &AffineMatrixObject) -> [i16; 4] {
    let bytes = m.to_bytes();
    [
        narrow_at(&bytes, 0),
        narrow_at(&bytes, 2),
        narrow_at(&bytes, 4),
        narrow_at(&bytes, 6),
    ]
}

#[test]
fn test_simple_multiply() {
    let position = vec2_int(20, 10);

    let a = AffineMatrix::from_translation(position);
    let b = AffineMatrix::default();

    let c = a.mul(b);

    assert_eq!(c.position(), position);

    let d = AffineMatrix::from_rotation(Fixed::from_raw(128));

    let e = a.mul(d);

    assert_eq!(e.position(), position);
    assert_eq!(d.mul(d), AffineMatrix::identity());
}

#[test]
fn identity_is_two_sided_neutral() {
    let m = AffineMatrix::from_scale(vec2_int(2, 3))
        .mul(AffineMatrix::from_translation(vec2_int(4, 5)));
    let i = AffineMatrix::identity();
    assert_eq!(m.mul(i), m);
    assert_eq!(i.mul(m), m);
}

#[test]
fn translation_recovery() {
    let c = AffineMatrix::from_translation(vec2_int(20, 10)).mul(AffineMatrix::identity());
    assert_eq!(c.position(), vec2_int(20, 10));
}

#[test]
fn double_half_turn_is_identity() {
    let d = AffineMatrix::from_rotation(Fixed::from_raw(128));
    assert_eq!(d.mul(d), AffineMatrix::identity());
}

#[test]
fn rotation_preserves_translation_position() {
    let a = AffineMatrix::from_translation(vec2_int(20, 10));
    let d = AffineMatrix::from_rotation(Fixed::from_raw(128));
    assert_eq!(a.mul(d).position(), vec2_int(20, 10));
}

#[test]
fn mul_assign_matches_mul() {
    let a = AffineMatrix::from_translation(vec2_int(7, -3));
    let d = AffineMatrix::from_scale(vec2_int(2, 2));
    let mut m = a;
    m.mul_assign(d);
    assert_eq!(m, a.mul(d));
}

#[test]
fn narrowing_round_trip_background() {
    let m = AffineMatrix::from_scale(vec2_int(2, 3))
        .mul(AffineMatrix::from_translation(vec2_int(4, 5)));
    let bg = m.try_to_background().expect("coefficients fit the narrow range");
    assert_eq!(bg.to_affine_matrix(), m);
}

#[test]
fn narrowing_round_trip_object() {
    let m = AffineMatrix::from_scale(vec2_raw(2 * 256 + 9, -3 * 256 - 1));
    let obj = m.try_to_object().expect("coefficients fit the narrow range");
    assert_eq!(obj.to_affine_matrix(), m);
}

#[test]
fn overflow_boundary_fallible() {
    // a linear coefficient of magnitude 128 (raw 32768) does not fit
    let m = AffineMatrix::from_scale(vec2_int(128, 1));
    assert_eq!(m.try_to_background(), Err(OverflowError));
    assert_eq!(m.try_to_object(), Err(OverflowError));

    // one raw step below the boundary both conversions succeed
    let n = AffineMatrix::from_scale(vec2_raw(32767, 256));
    assert!(n.try_to_background().is_ok());
    assert!(n.try_to_object().is_ok());
}

#[test]
fn overflow_boundary_wrapping_is_deterministic() {
    // raw 32768 wraps to raw -32768, bit pattern 0x8000
    let m = AffineMatrix::from_scale(vec2_int(128, 1));
    let coeffs = object_coeffs(&m.to_object_wrapping());
    assert_eq!(coeffs, [-32768, 0, 0, 256]);

    let bg = m.to_background_wrapping();
    let bytes = bg.to_bytes();
    assert_eq!(narrow_at(&bytes, 0), -32768);
    assert_eq!(&bytes[..2], &[0x00, 0x80]);
}

#[test]
fn wrapping_agrees_with_exact_in_range() {
    let m = AffineMatrix::from_scale(vec2_raw(517, -12000));
    let exact = m.try_to_object().unwrap();
    assert_eq!(m.to_object_wrapping(), exact);
}

#[test]
fn scale_convention_keeps_coefficients() {
    // from_scale((2, 2)) stores exactly 2 (raw 512), not the reciprocal
    let m = AffineMatrix::from_scale(vec2_int(2, 2));
    let coeffs = object_coeffs(&m.to_object_wrapping());
    assert_eq!(coeffs, [512, 0, 0, 512]);
}

#[test]
fn multiplication_is_not_commutative() {
    let a = AffineMatrix::from_rotation(Fixed::from_raw(64));
    let b = AffineMatrix::from_scale(vec2_int(2, 1));
    assert_ne!(a.mul(b), b.mul(a));
}

#[test]
fn rotation_angle_is_reduced_modulo_one_turn() {
    let negative = AffineMatrix::from_rotation(Fixed::from_raw(-64));
    let reduced = AffineMatrix::from_rotation(Fixed::from_raw(192));
    assert_eq!(negative, reduced);

    let whole = AffineMatrix::from_rotation(Fixed::from_int(1));
    let zero = AffineMatrix::from_rotation(Fixed::from_int(0));
    assert_eq!(whole, zero);
}

#[test]
fn rotation_uses_the_platform_tables() {
    // a quarter turn must give cos = 0 and sin = 1, so handing the angle
    // back unchanged would fail here
    let m = AffineMatrix::from_rotation(Fixed::from_raw(64));
    let coeffs = object_coeffs(&m.to_object_wrapping());
    assert_eq!(coeffs, [0, -256, 256, 0]);

    let z = AffineMatrix::from_rotation(Fixed::from_int(0));
    assert_eq!(z, AffineMatrix::identity());
}

#[test]
fn product_matches_platform_fixed_point_multiply() {
    let (p, q) = (845, -1299);
    let ours = AffineMatrix::from_scale(vec2_raw(p, 256))
        .mul(AffineMatrix::from_scale(vec2_raw(q, 256)));
    let coeffs = object_coeffs(&ours.to_object_wrapping());

    let theirs = agb_fixnum::Num::<i32, 8>::from_raw(p) * agb_fixnum::Num::<i32, 8>::from_raw(q);
    assert_eq!(coeffs[0] as i32, theirs.to_raw());
    assert_eq!(coeffs[0], -4288);
}

#[test]
fn background_block_layout() {
    let bg = AffineMatrix::from_translation(vec2_int(20, 10))
        .try_to_background()
        .unwrap();
    let bytes = bg.to_bytes();
    assert_eq!(
        bytes,
        vec![
            0x00, 0x01, // a = 1.0
            0x00, 0x00, // b = 0
            0x00, 0x00, // c = 0
            0x00, 0x01, // d = 1.0
            0x00, 0xEC, 0xFF, 0xFF, // x = -20.0
            0x00, 0xF6, 0xFF, 0xFF, // y = -10.0
        ]
    );
}

#[test]
fn object_block_layout() {
    let obj = AffineMatrix::from_scale(vec2_raw(256, -256)).try_to_object().unwrap();
    assert_eq!(obj.to_bytes(), vec![0x00, 0x01, 0x00, 0x00, 0x00, 0x00, 0x00, 0xFF]);
}

#[test]
fn defaults_are_identity() {
    assert_eq!(AffineMatrix::default(), AffineMatrix::identity());
    assert_eq!(
        agb_affine::affine::AffineMatrixBackground::default(),
        AffineMatrix::identity().try_to_background().unwrap()
    );
    assert_eq!(
        AffineMatrixObject::default(),
        AffineMatrix::identity().try_to_object().unwrap()
    );
}

#[test]
fn bridge_composes_the_four_transforms() {
    let r = agb_affine::affine::AffineMatrixBackground::from_scale_rotation_position(
        vec2_int(0, 0),
        vec2_int(1, 1),
        Fixed::from_int(0),
        vec2_int(5, 3),
    )
    .unwrap();
    let expected = AffineMatrix::from_translation(vec2_int(5, 3)).try_to_background().unwrap();
    assert_eq!(r, expected);
}

#[test]
fn bridge_floors_the_position() {
    let r = agb_affine::affine::AffineMatrixBackground::from_scale_rotation_position(
        vec2_int(0, 0),
        vec2_int(1, 1),
        Fixed::from_int(0),
        vec2_raw(5 * 256 + 200, 3 * 256 + 7),
    )
    .unwrap();
    let expected = AffineMatrix::from_translation(vec2_int(5, 3)).try_to_background().unwrap();
    assert_eq!(r, expected);
}

#[test]
fn bridge_rejects_unrepresentable_inputs() {
    let r = agb_affine::affine::AffineMatrixBackground::from_scale_rotation_position(
        vec2_int(0, 0),
        vec2_int(200, 1),
        Fixed::from_int(0),
        vec2_int(5, 3),
    );
    assert_eq!(r, Err(OverflowError));

    let p = agb_affine::affine::AffineMatrixBackground::from_scale_rotation_position(
        vec2_int(0, 0),
        vec2_int(1, 1),
        Fixed::from_int(0),
        vec2_int(4000, 0),
    );
    assert_eq!(p, Err(OverflowError));
}

#[test]
fn narrow_conversions() {
    assert!(Narrow::try_narrow(Fixed::from_raw(32768)).is_none());
    assert!(Narrow::try_narrow(Fixed::from_raw(-32769)).is_none());
    let n = Narrow::try_narrow(Fixed::from_raw(-32768)).unwrap();
    assert_eq!(n.to_raw(), -32768);
    assert_eq!(Narrow::wrap_from(Fixed::from_raw(32768)).to_raw(), -32768);
    assert_eq!(Narrow::wrap_from(Fixed::from_raw(65536 + 7)).to_raw(), 7);
    assert_eq!(Narrow::from_raw(-300).widen().to_raw(), -300);
}

#[test]
fn fixed_point_helpers() {
    assert_eq!(Fixed::from_int(2).to_raw(), 512);
    assert_eq!(Fixed::from_raw(-640).rem_euclid_one().to_raw(), 128);
    assert_eq!(Fixed::from_raw(-640).floor().to_raw(), -768);
    assert_eq!(Fixed::from_raw(700).floor().to_raw(), 512);
    assert_eq!(Fixed::from_int(5).neg().to_raw(), -1280);

    let theirs = agb_fixnum::Num::<i32, 8>::from_raw(-640)
        .rem_euclid(agb_fixnum::Num::<i32, 8>::from_raw(256));
    assert_eq!(Fixed::from_raw(-640).rem_euclid_one().to_raw(), theirs.to_raw());
}
