//! Affine-transformation matrices for hardware-accelerated 2D rendering.
//!
//! An affine matrix represents a linear map plus a translation.  The display
//! hardware samples source pixels by mapping *screen* coordinates into
//! *source* coordinates, the reverse of the usual "place an object on
//! screen" direction.  That texture-mapping convention fixes several signs
//! here: a rotation matrix is built as (cos, -sin; sin, cos) with no further
//! inversion, a translation stores the negated position, and a scaling by
//! `(2, 2)` makes the drawn content appear half as large.
//!
//! [`AffineMatrix`] is the full-precision working form used for algebra.
//! [`AffineMatrixBackground`] and [`AffineMatrixObject`] are the narrow
//! hardware-facing forms; each can reproduce its parameter block byte for
//! byte.  All contracts speak of raw fixed-point patterns, where 256 stands
//! for one (see [`crate::fixed`]).

use crate::fixed::{fits_narrow, wrap_narrow_spec, Fixed, Narrow, Vec2, Vec2Model};
use vstd::arithmetic::div_mod::{
    lemma_div_is_ordered, lemma_div_multiples_vanish, lemma_fundamental_div_mod,
    lemma_fundamental_div_mod_converse, lemma_mod_bound,
};
use vstd::prelude::*;

verus! {

/// The mathematical content of an affine matrix: the six raw fixed-point
/// coefficients of `p' = M p + t`, as unbounded integers.  `a`, `b`, `c`,
/// `d` form the linear part (row by row), `x`, `y` the stored offset.
pub ghost struct MatrixModel {
    pub a: int,
    pub b: int,
    pub c: int,
    pub d: int,
    pub x: int,
    pub y: int,
}

/// A raw value representable by the wide form: the `i32` range.
pub open spec fn fits_wide(v: int) -> bool {
    -2147483648 <= v <= 2147483647
}

/// The product of two raw coefficients, rescaled back by the 8 fractional
/// bits and rounded toward negative infinity (for a positive divisor the
/// Euclidean quotient is the floor).
pub open spec fn fmul(x: int, y: int) -> int {
    (x * y) / 256
}

/// The identity transform.
pub open spec fn identity_model() -> MatrixModel {
    MatrixModel { a: 256, b: 0, c: 0, d: 256, x: 0, y: 0 }
}

/// The transform translating by `p`: the stored offset is the negated
/// position, per the texture-mapping convention.
pub open spec fn translation_model(p: Vec2Model) -> MatrixModel {
    MatrixModel { a: 256, b: 0, c: 0, d: 256, x: -p.x, y: -p.y }
}

/// The transform scaling by `s` on its diagonal.
pub open spec fn scale_model(s: Vec2Model) -> MatrixModel {
    MatrixModel { a: s.x, b: 0, c: 0, d: s.y, x: 0, y: 0 }
}

/// The cosine of an angle given as a raw fraction of a turn, as a raw
/// fixed-point value.  Computed by the platform arithmetic crate; stated
/// only through this name.
pub uninterp spec fn cos_of(angle: int) -> int;

/// The sine of an angle given as a raw fraction of a turn, as a raw
/// fixed-point value.  Computed by the platform arithmetic crate; stated
/// only through this name.
pub uninterp spec fn sin_of(angle: int) -> int;

/// The transform rotating by the angle `t`, a raw fraction of a turn in
/// `[0, 256)`.  The sign layout is the texture-mapping one: a = cos,
/// b = -sin, c = sin, d = cos.
pub open spec fn rotation_model(t: int) -> MatrixModel {
    MatrixModel { a: cos_of(t), b: -sin_of(t), c: sin_of(t), d: cos_of(t), x: 0, y: 0 }
}

/// The composite `m * n`: the standard 2x2 product plus affine offset
/// propagation.  Applying the result to a point applies `n` first, then `m`.
pub open spec fn spec_mul(m: MatrixModel, n: MatrixModel) -> MatrixModel {
    MatrixModel {
        a: fmul(m.a, n.a) + fmul(m.b, n.c),
        b: fmul(m.a, n.b) + fmul(m.b, n.d),
        c: fmul(m.c, n.a) + fmul(m.d, n.c),
        d: fmul(m.c, n.b) + fmul(m.d, n.d),
        x: fmul(m.a, n.x) + fmul(m.b, n.y) + m.x,
        y: fmul(m.c, n.x) + fmul(m.d, n.y) + m.y,
    }
}

/// Whether every coefficient of `m * n` stays inside the wide range, so the
/// product can be computed without overflow.
pub open spec fn mul_fits(m: MatrixModel, n: MatrixModel) -> bool {
    let r = spec_mul(m, n);
    fits_wide(r.a) && fits_wide(r.b) && fits_wide(r.c) && fits_wide(r.d) && fits_wide(r.x)
        && fits_wide(r.y)
}

/// The transform that shifts by the *negated* origin: what
/// `translation_model` of the negated vector yields, written without the
/// double negation.
pub open spec fn origin_shift_model(o: Vec2Model) -> MatrixModel {
    MatrixModel { a: 256, b: 0, c: 0, d: 256, x: o.x, y: o.y }
}

/// Both components rounded down to whole numbers.
pub open spec fn floor_model(p: Vec2Model) -> Vec2Model {
    Vec2Model { x: p.x - p.x % 256, y: p.y - p.y % 256 }
}

/// The composite transform the trigonometry-bridge constructor computes:
/// `translate(-origin) * scale * rotate(rotation) * translate(position)`,
/// with the rotation reduced to a canonical turn and the position floored
/// to whole pixels, as the hardware path does.
pub open spec fn bridge_model(o: Vec2Model, s: Vec2Model, rot: int, p: Vec2Model) -> MatrixModel {
    spec_mul(
        spec_mul(
            spec_mul(origin_shift_model(o), scale_model(s)),
            rotation_model(rot % 256),
        ),
        translation_model(floor_model(p)),
    )
}

/// Whether the trigonometry-bridge constructor succeeds: scale and position
/// must fit the narrow range, every intermediate product must stay wide,
/// and the final linear part must narrow exactly.
pub open spec fn bridge_fits(o: Vec2Model, s: Vec2Model, rot: int, p: Vec2Model) -> bool {
    let m1 = spec_mul(origin_shift_model(o), scale_model(s));
    let m2 = spec_mul(m1, rotation_model(rot % 256));
    let m3 = spec_mul(m2, translation_model(floor_model(p)));
    &&& fits_narrow(s.x)
    &&& fits_narrow(s.y)
    &&& fits_narrow(p.x)
    &&& fits_narrow(p.y)
    &&& mul_fits(origin_shift_model(o), scale_model(s))
    &&& mul_fits(m1, rotation_model(rot % 256))
    &&& mul_fits(m2, translation_model(floor_model(p)))
    &&& fits_narrow(m3.a)
    &&& fits_narrow(m3.b)
    &&& fits_narrow(m3.c)
    &&& fits_narrow(m3.d)
}

/// The error emitted upon a conversion that could not be performed because a
/// value does not fit the destination range.
#[derive(Clone, Copy, Debug, PartialEq, Eq, Structural)]
pub struct OverflowError;

/// A full-precision affine matrix, the working form for all in-memory
/// algebra.
#[derive(Clone, Copy, Debug, PartialEq, Eq, Structural)]
pub struct AffineMatrix {
    a: Fixed,
    b: Fixed,
    c: Fixed,
    d: Fixed,
    x: Fixed,
    y: Fixed,
}

impl View for AffineMatrix {
    type V = MatrixModel;

    closed spec fn view(&self) -> MatrixModel {
        MatrixModel { a: self.a@, b: self.b@, c: self.c@, d: self.d@, x: self.x@, y: self.y@ }
    }
}

/// Relies on `agb_fixnum::Num::<i32, 8>::cos`: a lookup, on the low eight
/// raw bits of the angle, into a table of cosines held at eleven fractional
/// bits and bounded by one in magnitude, so the result is a function of the
/// raw angle alone and its raw value lies in `[-256, 256]`.
#[verifier::external_body]
fn cos_fixed(angle: Fixed) -> (r: Fixed)
    requires
        0 <= angle@ < 256,
    ensures
        r@ == cos_of(angle@),
        -256 <= r@ <= 256,
{
    Fixed::from_raw(agb_fixnum::Num::<i32, 8>::from_raw(angle.to_raw()).cos().to_raw())
}

/// Relies on `agb_fixnum::Num::<i32, 8>::sin`: the cosine lookup shifted by
/// a quarter turn, so the result is a function of the raw angle alone and
/// its raw value lies in `[-256, 256]`.
#[verifier::external_body]
fn sin_fixed(angle: Fixed) -> (r: Fixed)
    requires
        0 <= angle@ < 256,
    ensures
        r@ == sin_of(angle@),
        -256 <= r@ <= 256,
{
    Fixed::from_raw(agb_fixnum::Num::<i32, 8>::from_raw(angle.to_raw()).sin().to_raw())
}

proof fn lemma_product_bound(x: int, y: int)
    requires
        -2147483648 <= x <= 2147483647,
        -2147483648 <= y <= 2147483647,
    ensures
        -0x4000000000000000 <= x * y <= 0x4000000000000000,
{
    assert(-0x4000000000000000 <= x * y <= 0x4000000000000000) by (nonlinear_arith)
        requires
            -2147483648 <= x <= 2147483647,
            -2147483648 <= y <= 2147483647,
    ;
}

/// One coefficient product, computed exactly in 64 bits.
fn fmul_exec(x: Fixed, y: Fixed) -> (r: i64)
    ensures
        r as int == fmul(x@, y@),
        -0x40000000000000 <= r <= 0x40000000000000,
{
    let xr: i64 = x.to_raw() as i64;
    let yr: i64 = y.to_raw() as i64;
    proof {
        lemma_product_bound(xr as int, yr as int);
    }
    let p: i64 = xr * yr;
    if p >= 0 {
        let q: u64 = (p as u64) / 256;
        proof {
            lemma_div_is_ordered(p as int, 0x4000000000000000int, 256int);
            lemma_div_is_ordered(0int, p as int, 256int);
        }
        q as i64
    } else {
        let n: u64 = (-p) as u64;
        let q: u64 = (n + 255) / 256;
        proof {
            lemma_fundamental_div_mod(n as int + 255, 256int);
            lemma_mod_bound(n as int + 255, 256int);
            lemma_div_is_ordered(0int, n as int + 255, 256int);
            lemma_div_is_ordered(n as int + 255, 0x4000000000000000int + 255, 256int);
            lemma_fundamental_div_mod_converse(
                p as int,
                256int,
                -(q as int),
                255 - (n as int + 255) % 256,
            );
        }
        -(q as i64)
    }
}

/// The two bytes of a narrow value's 16-bit two's-complement pattern,
/// little-endian.
fn le16_parts(n: Narrow) -> (r: (u8, u8))
    ensures
        r.0 as int + 256 * (r.1 as int) == n@ % 65536,
{
    let raw = n.to_raw();
    let v: u16 = if raw >= 0 {
        raw as u16
    } else {
        ((raw as i32) + 65536) as u16
    };
    proof {
        if raw >= 0 {
            lemma_fundamental_div_mod_converse(n@, 65536, 0, n@);
        } else {
            lemma_fundamental_div_mod_converse(n@, 65536, -1, n@ + 65536);
        }
        lemma_fundamental_div_mod(v as int, 256);
        lemma_mod_bound(v as int, 256);
        lemma_div_is_ordered(0int, v as int, 256);
        lemma_div_is_ordered(v as int, 65535int, 256);
    }
    ((v % 256) as u8, (v / 256) as u8)
}

/// The four bytes of a wide value's 32-bit two's-complement pattern,
/// little-endian.
fn le32_parts(f: Fixed) -> (r: (u8, u8, u8, u8))
    ensures
        r.0 as int + 256 * (r.1 as int) + 65536 * (r.2 as int) + 16777216 * (r.3 as int) == f@
            % 4294967296,
{
    let raw = f.to_raw();
    let v: u32 = if raw >= 0 {
        raw as u32
    } else {
        ((raw as i64) + 4294967296) as u32
    };
    proof {
        if raw >= 0 {
            lemma_fundamental_div_mod_converse(f@, 4294967296, 0, f@);
        } else {
            lemma_fundamental_div_mod_converse(f@, 4294967296, -1, f@ + 4294967296);
        }
    }
    let b0: u8 = (v % 256) as u8;
    let v1: u32 = v / 256;
    let b1: u8 = (v1 % 256) as u8;
    let v2: u32 = v1 / 256;
    let b2: u8 = (v2 % 256) as u8;
    let b3: u8 = (v2 / 256) as u8;
    proof {
        lemma_fundamental_div_mod(v as int, 256);
        lemma_fundamental_div_mod(v1 as int, 256);
        lemma_fundamental_div_mod(v2 as int, 256);
        lemma_mod_bound(v as int, 256);
        lemma_mod_bound(v1 as int, 256);
        lemma_mod_bound(v2 as int, 256);
        lemma_div_is_ordered(0int, v as int, 256);
        lemma_div_is_ordered(v as int, 4294967295int, 256);
        lemma_div_is_ordered(0int, v1 as int, 256);
        lemma_div_is_ordered(v1 as int, 16777215int, 256);
        lemma_div_is_ordered(0int, v2 as int, 256);
        lemma_div_is_ordered(v2 as int, 65535int, 256);
    }
    (b0, b1, b2, b3)
}

impl AffineMatrix {
    /// The identity matrix, the two-sided neutral element of multiplication:
    /// for a matrix `A`, `A == A * I == I * A` (see
    /// [`lemma_identity_neutral`]).
    pub fn identity() -> (r: Self)
        ensures
            r@ == identity_model(),
    {
        let one = Fixed::from_int(1);
        let zero = Fixed::from_int(0);
        AffineMatrix { a: one, b: zero, c: zero, d: one, x: zero, y: zero }
    }

    /// The matrix rotating by `angle`, a fraction of a full turn, first
    /// reduced to the canonical range `[0, 1)`.  Per the texture-mapping
    /// convention the layout is a = cos, b = -sin, c = sin, d = cos, with no
    /// sign inversion.
    pub fn from_rotation(angle: Fixed) -> (r: Self)
        ensures
            r@ == rotation_model(angle@ % 256),
    {
        let reduced = angle.rem_euclid_one();
        let cos_v = cos_fixed(reduced);
        let sin_v = sin_fixed(reduced);
        let zero = Fixed::from_int(0);
        AffineMatrix { a: cos_v, b: sin_v.neg(), c: sin_v, d: cos_v, x: zero, y: zero }
    }

    /// The matrix translating by `position`.  The stored offset is the
    /// negated position: the hardware applies the additive offset to the
    /// inverse transform.
    pub fn from_translation(position: Vec2) -> (r: Self)
        requires
            position@.x != -2147483648,
            position@.y != -2147483648,
        ensures
            r@ == translation_model(position@),
    {
        let one = Fixed::from_int(1);
        let zero = Fixed::from_int(0);
        AffineMatrix {
            a: one,
            b: zero,
            c: zero,
            d: one,
            x: position.x.neg(),
            y: position.y.neg(),
        }
    }

    /// The matrix scaling by `scale` on its diagonal.  Because of the
    /// texture-mapping convention the visual effect is scaling by the
    /// reciprocal: `(2, 2)` samples the source at twice the rate and halves
    /// the apparent size.
    pub fn from_scale(scale: Vec2) -> (r: Self)
        ensures
            r@ == scale_model(scale@),
    {
        let zero = Fixed::from_int(0);
        AffineMatrix { a: scale.x, b: zero, c: zero, d: scale.y, x: zero, y: zero }
    }

    /// The on-screen reference point: the negation of the stored offset.
    pub fn position(&self) -> (r: Vec2)
        requires
            self@.x != -2147483648,
            self@.y != -2147483648,
        ensures
            r@ == (Vec2Model { x: -self@.x, y: -self@.y }),
    {
        Vec2::new(self.x.neg(), self.y.neg())
    }

    /// The product `self * rhs`, exact: applying it to a point applies
    /// `rhs` first, then `self`.
    pub fn mul(self, rhs: Self) -> (r: Self)
        requires
            mul_fits(self@, rhs@),
        ensures
            r@ == spec_mul(self@, rhs@),
    {
        self.mul_checked(rhs).unwrap()
    }

    /// The product `self * rhs`, or `None` when a coefficient would leave
    /// the wide range.
    fn mul_checked(self, rhs: Self) -> (r: Option<Self>)
        ensures
            r is Some <==> mul_fits(self@, rhs@),
            r matches Some(m) ==> m@ == spec_mul(self@, rhs@),
    {
        let a64: i64 = fmul_exec(self.a, rhs.a) + fmul_exec(self.b, rhs.c);
        let b64: i64 = fmul_exec(self.a, rhs.b) + fmul_exec(self.b, rhs.d);
        let c64: i64 = fmul_exec(self.c, rhs.a) + fmul_exec(self.d, rhs.c);
        let d64: i64 = fmul_exec(self.c, rhs.b) + fmul_exec(self.d, rhs.d);
        let x64: i64 = fmul_exec(self.a, rhs.x) + fmul_exec(self.b, rhs.y)
            + (self.x.to_raw() as i64);
        let y64: i64 = fmul_exec(self.c, rhs.x) + fmul_exec(self.d, rhs.y)
            + (self.y.to_raw() as i64);
        if -2147483648 <= a64 && a64 <= 2147483647 && -2147483648 <= b64 && b64 <= 2147483647
            && -2147483648 <= c64 && c64 <= 2147483647 && -2147483648 <= d64 && d64 <= 2147483647
            && -2147483648 <= x64 && x64 <= 2147483647 && -2147483648 <= y64 && y64 <= 2147483647 {
            Some(
                AffineMatrix {
                    a: Fixed::from_raw(a64 as i32),
                    b: Fixed::from_raw(b64 as i32),
                    c: Fixed::from_raw(c64 as i32),
                    d: Fixed::from_raw(d64 as i32),
                    x: Fixed::from_raw(x64 as i32),
                    y: Fixed::from_raw(y64 as i32),
                },
            )
        } else {
            None
        }
    }

    /// Compound multiply-assign: `A *= B` leaves `A * B` in `A`.
    pub fn mul_assign(&mut self, rhs: Self)
        requires
            mul_fits(old(self)@, rhs@),
        ensures
            final(self)@ == spec_mul(old(self)@, rhs@),
    {
        let prev = *self;
        *self = prev.mul(rhs);
    }

    /// Exact narrowing to the background form.  Fails, returning
    /// [`OverflowError`], exactly when some linear-part coefficient does not
    /// fit the narrow range; the translation keeps its wide precision.
    pub fn try_to_background(&self) -> (r: Result<AffineMatrixBackground, OverflowError>)
        ensures
            r is Ok <==> fits_narrow(self@.a) && fits_narrow(self@.b) && fits_narrow(self@.c)
                && fits_narrow(self@.d),
            r matches Ok(m) ==> m@ == self@,
    {
        let a = match Narrow::try_narrow(self.a) {
            Some(n) => n,
            None => { return Err(OverflowError); },
        };
        let b = match Narrow::try_narrow(self.b) {
            Some(n) => n,
            None => { return Err(OverflowError); },
        };
        let c = match Narrow::try_narrow(self.c) {
            Some(n) => n,
            None => { return Err(OverflowError); },
        };
        let d = match Narrow::try_narrow(self.d) {
            Some(n) => n,
            None => { return Err(OverflowError); },
        };
        Ok(AffineMatrixBackground { a, b, c, d, x: self.x, y: self.y })
    }

    /// Wrapping narrowing to the background form: each linear-part
    /// coefficient keeps its low 16 raw bits, accepting silent wraparound;
    /// never fails, and out-of-range input yields a lossy result.
    pub fn to_background_wrapping(&self) -> (r: AffineMatrixBackground)
        ensures
            r@ == (MatrixModel {
                a: wrap_narrow_spec(self@.a),
                b: wrap_narrow_spec(self@.b),
                c: wrap_narrow_spec(self@.c),
                d: wrap_narrow_spec(self@.d),
                x: self@.x,
                y: self@.y,
            }),
    {
        AffineMatrixBackground {
            a: Narrow::wrap_from(self.a),
            b: Narrow::wrap_from(self.b),
            c: Narrow::wrap_from(self.c),
            d: Narrow::wrap_from(self.d),
            x: self.x,
            y: self.y,
        }
    }

    /// Exact narrowing to the object form.  Fails, returning
    /// [`OverflowError`], exactly when some linear-part coefficient does not
    /// fit the narrow range; the offset is dropped, as sprites are
    /// positioned by a separate hardware field.
    pub fn try_to_object(&self) -> (r: Result<AffineMatrixObject, OverflowError>)
        ensures
            r is Ok <==> fits_narrow(self@.a) && fits_narrow(self@.b) && fits_narrow(self@.c)
                && fits_narrow(self@.d),
            r matches Ok(m) ==> m@ == (MatrixModel { x: 0, y: 0, ..self@ }),
    {
        let a = match Narrow::try_narrow(self.a) {
            Some(n) => n,
            None => { return Err(OverflowError); },
        };
        let b = match Narrow::try_narrow(self.b) {
            Some(n) => n,
            None => { return Err(OverflowError); },
        };
        let c = match Narrow::try_narrow(self.c) {
            Some(n) => n,
            None => { return Err(OverflowError); },
        };
        let d = match Narrow::try_narrow(self.d) {
            Some(n) => n,
            None => { return Err(OverflowError); },
        };
        Ok(AffineMatrixObject { a, b, c, d })
    }

    /// Wrapping narrowing to the object form: like
    /// [`Self::to_background_wrapping`], but the offset is dropped.
    pub fn to_object_wrapping(&self) -> (r: AffineMatrixObject)
        ensures
            r@ == (MatrixModel {
                a: wrap_narrow_spec(self@.a),
                b: wrap_narrow_spec(self@.b),
                c: wrap_narrow_spec(self@.c),
                d: wrap_narrow_spec(self@.d),
                x: 0,
                y: 0,
            }),
    {
        AffineMatrixObject {
            a: Narrow::wrap_from(self.a),
            b: Narrow::wrap_from(self.b),
            c: Narrow::wrap_from(self.c),
            d: Narrow::wrap_from(self.d),
        }
    }
}

impl Default for AffineMatrix {
    /// The identity matrix.
    fn default() -> (r: Self)
        ensures
            r@ == identity_model(),
    {
        AffineMatrix::identity()
    }
}

/// An affine matrix in the form the background layer's parameter block
/// takes: narrow linear part, wide translation.
#[derive(Clone, Copy, Debug, PartialEq, Eq, Structural)]
pub struct AffineMatrixBackground {
    a: Narrow,
    b: Narrow,
    c: Narrow,
    d: Narrow,
    x: Fixed,
    y: Fixed,
}

impl View for AffineMatrixBackground {
    type V = MatrixModel;

    closed spec fn view(&self) -> MatrixModel {
        MatrixModel { a: self.a@, b: self.b@, c: self.c@, d: self.d@, x: self.x@, y: self.y@ }
    }
}

/// An affine matrix in the form the sprite layer's parameter set takes:
/// narrow linear part only.
#[derive(Clone, Copy, Debug, PartialEq, Eq, Structural)]
pub struct AffineMatrixObject {
    a: Narrow,
    b: Narrow,
    c: Narrow,
    d: Narrow,
}

impl View for AffineMatrixObject {
    type V = MatrixModel;

    closed spec fn view(&self) -> MatrixModel {
        MatrixModel { a: self.a@, b: self.b@, c: self.c@, d: self.d@, x: 0, y: 0 }
    }
}

impl AffineMatrixBackground {
    /// Exact widening back to the working form: narrow-to-wide conversion
    /// loses nothing.
    pub fn to_affine_matrix(&self) -> (r: AffineMatrix)
        ensures
            r@ == self@,
    {
        AffineMatrix {
            a: self.a.widen(),
            b: self.b.widen(),
            c: self.c.widen(),
            d: self.d.widen(),
            x: self.x,
            y: self.y,
        }
    }

    /// The composite transform
    /// `translate(-origin) * scale * rotate(rotation) * translate(position)`,
    /// narrowed for the background layer.  On the console this matrix comes
    /// from a platform trigonometry routine; composing the four working
    /// matrices is the behaviourally equivalent software form.  The rotation
    /// is reduced modulo one full turn and the position is floored to whole
    /// pixels, as that routine demands; every range failure — an input that
    /// does not narrow, or a coefficient leaving the wide or narrow range —
    /// is reported as a recoverable [`OverflowError`].
    pub fn from_scale_rotation_position(
        transform_origin: Vec2,
        scale: Vec2,
        rotation: Fixed,
        position: Vec2,
    ) -> (r: Result<AffineMatrixBackground, OverflowError>)
        ensures
            r is Ok <==> bridge_fits(transform_origin@, scale@, rotation@, position@),
            r matches Ok(m) ==> m@ == bridge_model(
                transform_origin@,
                scale@,
                rotation@,
                position@,
            ),
    {
        if Narrow::try_narrow(scale.x).is_none() || Narrow::try_narrow(scale.y).is_none()
            || Narrow::try_narrow(position.x).is_none()
            || Narrow::try_narrow(position.y).is_none() {
            return Err(OverflowError);
        }
        let one = Fixed::from_int(1);
        let zero = Fixed::from_int(0);
        let t_origin = AffineMatrix {
            a: one,
            b: zero,
            c: zero,
            d: one,
            x: transform_origin.x,
            y: transform_origin.y,
        };
        let m1 = match t_origin.mul_checked(AffineMatrix::from_scale(scale)) {
            Some(m) => m,
            None => { return Err(OverflowError); },
        };
        let m2 = match m1.mul_checked(AffineMatrix::from_rotation(rotation)) {
            Some(m) => m,
            None => { return Err(OverflowError); },
        };
        let floored = Vec2::new(position.x.floor(), position.y.floor());
        let m3 = match m2.mul_checked(AffineMatrix::from_translation(floored)) {
            Some(m) => m,
            None => { return Err(OverflowError); },
        };
        m3.try_to_background()
    }

    /// The background parameter block the hardware reads, byte for byte:
    /// 16 bytes, little-endian, `a b c d` as 2-byte narrow values at
    /// offsets 0, 2, 4 and 6, then `x y` as 4-byte wide values at offsets
    /// 8 and 12, no interior padding.
    pub fn to_bytes(&self) -> (r: Vec<u8>)
        ensures
            r@.len() == 16,
            r@[0] as int + 256 * (r@[1] as int) == self@.a % 65536,
            r@[2] as int + 256 * (r@[3] as int) == self@.b % 65536,
            r@[4] as int + 256 * (r@[5] as int) == self@.c % 65536,
            r@[6] as int + 256 * (r@[7] as int) == self@.d % 65536,
            r@[8] as int + 256 * (r@[9] as int) + 65536 * (r@[10] as int) + 16777216 * (
            r@[11] as int) == self@.x % 4294967296,
            r@[12] as int + 256 * (r@[13] as int) + 65536 * (r@[14] as int) + 16777216 * (
            r@[15] as int) == self@.y % 4294967296,
    {
        let mut out: Vec<u8> = Vec::new();
        let a = le16_parts(self.a);
        out.push(a.0);
        out.push(a.1);
        let b = le16_parts(self.b);
        out.push(b.0);
        out.push(b.1);
        let c = le16_parts(self.c);
        out.push(c.0);
        out.push(c.1);
        let d = le16_parts(self.d);
        out.push(d.0);
        out.push(d.1);
        let x = le32_parts(self.x);
        out.push(x.0);
        out.push(x.1);
        out.push(x.2);
        out.push(x.3);
        let y = le32_parts(self.y);
        out.push(y.0);
        out.push(y.1);
        out.push(y.2);
        out.push(y.3);
        out
    }
}

impl AffineMatrixObject {
    /// Exact widening back to the working form; the translation is set to
    /// zero, as the object form carries none.
    pub fn to_affine_matrix(&self) -> (r: AffineMatrix)
        ensures
            r@ == self@,
    {
        let zero = Fixed::from_int(0);
        AffineMatrix {
            a: self.a.widen(),
            b: self.b.widen(),
            c: self.c.widen(),
            d: self.d.widen(),
            x: zero,
            y: zero,
        }
    }

    /// The object parameter set the hardware reads, byte for byte: 8 bytes,
    /// little-endian, `a b c d` as 2-byte narrow values at offsets 0, 2, 4
    /// and 6, no padding.
    pub fn to_bytes(&self) -> (r: Vec<u8>)
        ensures
            r@.len() == 8,
            r@[0] as int + 256 * (r@[1] as int) == self@.a % 65536,
            r@[2] as int + 256 * (r@[3] as int) == self@.b % 65536,
            r@[4] as int + 256 * (r@[5] as int) == self@.c % 65536,
            r@[6] as int + 256 * (r@[7] as int) == self@.d % 65536,
    {
        let mut out: Vec<u8> = Vec::new();
        let a = le16_parts(self.a);
        out.push(a.0);
        out.push(a.1);
        let b = le16_parts(self.b);
        out.push(b.0);
        out.push(b.1);
        let c = le16_parts(self.c);
        out.push(c.0);
        out.push(c.1);
        let d = le16_parts(self.d);
        out.push(d.0);
        out.push(d.1);
        out
    }
}

impl Default for AffineMatrixBackground {
    /// The identity matrix, narrowed.
    fn default() -> (r: Self)
        ensures
            r@ == identity_model(),
    {
        let r = AffineMatrix::identity().to_background_wrapping();
        proof {
            lemma_wrap_exact_in_range(256);
            lemma_wrap_exact_in_range(0);
        }
        r
    }
}

impl Default for AffineMatrixObject {
    /// The identity matrix, narrowed.
    fn default() -> (r: Self)
        ensures
            r@ == identity_model(),
    {
        let r = AffineMatrix::identity().to_object_wrapping();
        proof {
            lemma_wrap_exact_in_range(256);
            lemma_wrap_exact_in_range(0);
        }
        r
    }
}

/// Identity law: the identity matrix is the two-sided neutral element of
/// composition, for every matrix model.
pub proof fn lemma_identity_neutral(m: MatrixModel)
    ensures
        spec_mul(m, identity_model()) == m,
        spec_mul(identity_model(), m) == m,
{
    lemma_div_multiples_vanish(m.a, 256);
    lemma_div_multiples_vanish(m.b, 256);
    lemma_div_multiples_vanish(m.c, 256);
    lemma_div_multiples_vanish(m.d, 256);
    lemma_div_multiples_vanish(m.x, 256);
    lemma_div_multiples_vanish(m.y, 256);
}

/// A transform with no stored offset, composed to the right of a
/// translation, leaves the translation's offset fields unchanged; since the
/// reported position is the negated offset, the position is preserved.  A
/// rotation is such a transform.
pub proof fn lemma_translation_offset_preserved(p: Vec2Model, m: MatrixModel)
    requires
        m.x == 0,
        m.y == 0,
    ensures
        spec_mul(translation_model(p), m).x == translation_model(p).x,
        spec_mul(translation_model(p), m).y == translation_model(p).y,
{
}

/// Wrapping narrowing is exact on every value that fits the narrow range:
/// on those inputs it agrees with the fallible conversion.
pub proof fn lemma_wrap_exact_in_range(v: int)
    requires
        fits_narrow(v),
    ensures
        wrap_narrow_spec(v) == v,
{
    if v >= 0 {
        lemma_fundamental_div_mod_converse(v, 65536, 0, v);
    } else {
        lemma_fundamental_div_mod_converse(v, 65536, -1, v + 65536);
    }
}

/// Composition is not commutative: there are matrices whose two products
/// differ.  A non-uniform scaling against a translation witnesses it.
pub proof fn lemma_mul_noncommutative_witness()
    ensures
        exists|m1: MatrixModel, m2: MatrixModel| spec_mul(m1, m2) != spec_mul(m2, m1),
{
    let w1 = scale_model(Vec2Model { x: 512, y: 256 });
    let w2 = translation_model(Vec2Model { x: 256, y: 0 });
    lemma_div_multiples_vanish(-512, 256);
    assert(fmul(512, -256) == -512);
    assert(spec_mul(w1, w2).x == -512);
    assert(spec_mul(w2, w1).x == -256);
    assert(spec_mul(w1, w2) != spec_mul(w2, w1));
}

} // verus!
