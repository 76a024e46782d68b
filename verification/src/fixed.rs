//! Fixed-point numbers and 2D vectors backing the affine-matrix algebra.
//!
//! The wide form keeps 24 integer bits and 8 fractional bits in an `i32`; the
//! narrow form keeps 8 integer bits and 8 fractional bits in an `i16`, the
//! split the hardware parameter blocks use.  A number's mathematical value is
//! its raw bit pattern divided by 256, so contracts here speak of raw
//! patterns: 256 stands for one.

use vstd::prelude::*;

verus! {

/// A raw value representable by the narrow form: the `i16` range.
pub open spec fn fits_narrow(v: int) -> bool {
    -32768 <= v <= 32767
}

/// The raw value the wrapping narrow conversion yields: `v` reduced modulo
/// 2^16 into the `i16` range, i.e. two's-complement truncation to 16 bits.
pub open spec fn wrap_narrow_spec(v: int) -> int {
    if v % 65536 >= 32768 {
        v % 65536 - 65536
    } else {
        v % 65536
    }
}

/// Wide fixed-point number: 24 integer bits, 8 fractional bits.
#[derive(Clone, Copy, Debug, PartialEq, Eq, Structural)]
pub struct Fixed {
    raw: i32,
}

impl View for Fixed {
    type V = int;

    closed spec fn view(&self) -> int {
        self.raw as int
    }
}

impl Fixed {
    /// Bit-for-bit construction from a raw pattern.
    pub fn from_raw(raw: i32) -> (r: Self)
        ensures
            r@ == raw as int,
    {
        Fixed { raw }
    }

    /// The raw bit pattern.
    pub fn to_raw(self) -> (r: i32)
        ensures
            r as int == self@,
    {
        self.raw
    }

    /// The fixed-point number holding the whole number `v`.
    pub fn from_int(v: i32) -> (r: Self)
        requires
            -8388608 <= v < 8388608,
        ensures
            r@ == 256 * v,
    {
        Fixed { raw: 256 * v }
    }

    /// Negation.
    pub fn neg(self) -> (r: Self)
        requires
            self@ != -2147483648,
        ensures
            r@ == -self@,
    {
        Fixed { raw: -self.raw }
    }

    /// Euclidean remainder by one: the canonical representative of this
    /// number modulo a whole turn, in `[0, 1)`.
    pub fn rem_euclid_one(self) -> (r: Self)
        ensures
            r@ == self@ % 256,
            0 <= r@ < 256,
    {
        let off: u64 = ((self.raw as i64) + 2147483648) as u64;
        let m: u64 = off % 256;
        proof {
            vstd::arithmetic::div_mod::lemma_mod_multiples_vanish(
                8388608int,
                self.raw as int,
                256int,
            );
            assert(off as int == 256 * 8388608 + self.raw as int);
        }
        Fixed { raw: m as i32 }
    }

    /// Rounding down to the nearest whole number.
    pub fn floor(self) -> (r: Self)
        ensures
            r@ == self@ - self@ % 256,
    {
        let rem = self.rem_euclid_one();
        proof {
            vstd::arithmetic::div_mod::lemma_fundamental_div_mod(self.raw as int, 256int);
            vstd::arithmetic::div_mod::lemma_div_is_ordered(
                -2147483648int,
                self.raw as int,
                256int,
            );
            vstd::arithmetic::div_mod::lemma_div_is_ordered(
                self.raw as int,
                2147483647int,
                256int,
            );
            assert(self.raw as int - self.raw as int % 256 == 256 * (self.raw as int / 256));
        }
        Fixed { raw: self.raw - rem.raw }
    }
}

/// Narrow fixed-point number: 8 integer bits, 8 fractional bits.
#[derive(Clone, Copy, Debug, PartialEq, Eq, Structural)]
pub struct Narrow {
    raw: i16,
}

impl View for Narrow {
    type V = int;

    closed spec fn view(&self) -> int {
        self.raw as int
    }
}

impl Narrow {
    /// Bit-for-bit construction from a raw pattern.
    pub fn from_raw(raw: i16) -> (r: Self)
        ensures
            r@ == raw as int,
    {
        Narrow { raw }
    }

    /// The raw bit pattern.
    pub fn to_raw(self) -> (r: i16)
        ensures
            r as int == self@,
    {
        self.raw
    }

    /// Exact widening: narrow-to-wide conversion cannot lose information.
    pub fn widen(self) -> (r: Fixed)
        ensures
            r@ == self@,
    {
        Fixed::from_raw(self.raw as i32)
    }

    /// Exact narrowing; fails precisely when the wide raw value does not fit
    /// the narrow range.
    pub fn try_narrow(wide: Fixed) -> (r: Option<Narrow>)
        ensures
            r is Some <==> fits_narrow(wide@),
            r matches Some(n) ==> n@ == wide@,
    {
        let raw = wide.to_raw();
        if -32768 <= raw && raw <= 32767 {
            Some(Narrow { raw: raw as i16 })
        } else {
            None
        }
    }

    /// Wrapping narrowing: keeps the low 16 raw bits, accepting silent
    /// numeric wraparound; never fails.
    pub fn wrap_from(wide: Fixed) -> (r: Narrow)
        ensures
            r@ == wrap_narrow_spec(wide@),
    {
        let off: u64 = ((wide.to_raw() as i64) + 2147483648) as u64;
        let m: u64 = off % 65536;
        proof {
            vstd::arithmetic::div_mod::lemma_mod_multiples_vanish(
                32768int,
                wide@,
                65536int,
            );
            assert(off as int == 65536 * 32768 + wide@);
        }
        if m >= 32768 {
            Narrow { raw: (m as i64 - 65536) as i16 }
        } else {
            Narrow { raw: m as i16 }
        }
    }
}

/// A 2D vector of wide fixed-point numbers.
#[derive(Clone, Copy, Debug, PartialEq, Eq, Structural)]
pub struct Vec2 {
    pub x: Fixed,
    pub y: Fixed,
}

/// The mathematical content of a [`Vec2`]: both raw values, as integers.
pub ghost struct Vec2Model {
    pub x: int,
    pub y: int,
}

impl View for Vec2 {
    type V = Vec2Model;

    open spec fn view(&self) -> Vec2Model {
        Vec2Model { x: self.x@, y: self.y@ }
    }
}

impl Vec2 {
    /// The vector with the given components.
    pub fn new(x: Fixed, y: Fixed) -> (r: Self)
        ensures
            r@ == (Vec2Model { x: x@, y: y@ }),
    {
        Vec2 { x, y }
    }
}

} // verus!
