//! Unit model: physical lengths in millimeters, held as exact rationals,
//! and their conversion to integer pixel counts at a given resolution
//! (dots per inch). One inch is exactly 25.4 mm, so
//! `px = round(mm * dpi / 25.4)` and `mm = px * 25.4 / dpi`.

use vstd::arithmetic::div_mod::{lemma_fundamental_div_mod, lemma_fundamental_div_mod_converse};
use vstd::prelude::*;

verus! {

/// A rational number, for specification only: `num / den` with `den >= 1`.
pub struct Rat {
    pub num: int,
    pub den: int,
}

/// Integer division that rounds the quotient `a / b` to the nearest
/// integer, ties away from zero. Defined for `b >= 1`.
pub open spec fn rounded_div(a: int, b: int) -> int
    recommends
        b >= 1,
{
    if a >= 0 {
        (2 * a + b) / (2 * b)
    } else {
        -((2 * (-a) + b) / (2 * b))
    }
}

/// Saturate an integer into the `usize` range, as a float-to-integer cast
/// would: negative values become 0, values over `usize::MAX` become
/// `usize::MAX`.
pub open spec fn clamp_px(v: int) -> int {
    if v < 0 {
        0
    } else if v > usize::MAX as int {
        usize::MAX as int
    } else {
        v
    }
}

/// Pixel count of the rational length `r` (in mm) at resolution `dpi`:
/// `round(r * dpi / 25.4)`, ties away from zero.
pub open spec fn rat_to_px(r: Rat, dpi: int) -> int
    recommends
        r.den >= 1,
        dpi >= 1,
{
    rounded_div(r.num * dpi * 10, r.den * 254)
}

/// Exact physical length of `px` pixels at resolution `dpi`:
/// `px * 25.4 / dpi` millimeters.
pub open spec fn rat_from_px(px: int, dpi: int) -> Rat
    recommends
        dpi >= 1,
{
    Rat { num: px * 254, den: dpi * 10 }
}

/// Exact difference `a - b` of two rationals.
pub open spec fn rat_sub(a: Rat, b: Rat) -> Rat
    recommends
        a.den >= 1,
        b.den >= 1,
{
    Rat { num: a.num * b.den - b.num * a.den, den: a.den * b.den }
}

/// Exact sum `a + b` of two rationals.
pub open spec fn rat_add(a: Rat, b: Rat) -> Rat
    recommends
        a.den >= 1,
        b.den >= 1,
{
    Rat { num: a.num * b.den + b.num * a.den, den: a.den * b.den }
}

/// A physical length in millimeters, as the exact rational `num / den` mm.
#[derive(Clone, Copy, Debug, PartialEq, Eq, Structural)]
pub struct Mm {
    pub num: i64,
    pub den: u64,
}

impl Mm {
    /// A length is well formed when its denominator is positive.
    pub open spec fn wf(self) -> bool {
        self.den >= 1
    }

    /// The exact rational value of this length, in millimeters.
    pub open spec fn value(self) -> Rat {
        Rat { num: self.num as int, den: self.den as int }
    }

    /// The exact pixel count this length converts to at resolution `dpi`,
    /// before saturation into the `usize` range.
    pub open spec fn spec_to_px(self, dpi: int) -> int {
        rat_to_px(self.value(), dpi)
    }

    /// A length given in tenths of a millimeter.
    pub fn from_tenths(tenths: i64) -> (r: Mm)
        ensures
            r == (Mm { num: tenths, den: 10 }),
    {
        Mm { num: tenths, den: 10 }
    }

    /// Pixel count of this length at resolution `dpi`: the rational value
    /// `self * dpi / 25.4` rounded to the nearest integer (ties away from
    /// zero), saturated into the `usize` range.
    pub fn to_px(self, dpi: usize) -> (r: usize)
        requires
            self.wf(),
            dpi <= u32::MAX,
        ensures
            r == clamp_px(self.spec_to_px(dpi as int)),
    {
        exec_rat_to_px(self.num as i128, self.den as i128, dpi)
    }

    /// The exact physical length of `px` pixels at resolution `dpi`:
    /// `px * 25.4 / dpi` millimeters, with no rounding.
    pub fn from_px(px: usize, dpi: usize) -> (r: Mm)
        requires
            1 <= dpi <= u32::MAX,
            px * 254 <= i64::MAX,
        ensures
            r.value() == rat_from_px(px as int, dpi as int),
            r.wf(),
    {
        Mm { num: (px as i64) * 254, den: (dpi as u64) * 10 }
    }

    /// Exact rational sum of two lengths.
    pub fn plus(self, rhs: Mm) -> (r: Mm)
        requires
            self.wf(),
            rhs.wf(),
            -0x3FFF_FFFF_FFFF_FFFF <= self.num * rhs.den <= 0x3FFF_FFFF_FFFF_FFFF,
            -0x3FFF_FFFF_FFFF_FFFF <= rhs.num * self.den <= 0x3FFF_FFFF_FFFF_FFFF,
            self.den * rhs.den <= u64::MAX,
        ensures
            r.value() == rat_add(self.value(), rhs.value()),
            r.wf(),
    {
        proof {
            assert(self.den * rhs.den >= 1) by (nonlinear_arith)
                requires
                    self.den >= 1,
                    rhs.den >= 1,
            ;
        }
        let num: i128 = (self.num as i128) * (rhs.den as i128) + (rhs.num as i128) * (self.den
            as i128);
        Mm { num: num as i64, den: self.den * rhs.den }
    }

    /// Exact rational difference of two lengths. Subtracting a larger
    /// length from a smaller one is permitted and yields a negative
    /// offset.
    pub fn minus(self, rhs: Mm) -> (r: Mm)
        requires
            self.wf(),
            rhs.wf(),
            -0x3FFF_FFFF_FFFF_FFFF <= self.num * rhs.den <= 0x3FFF_FFFF_FFFF_FFFF,
            -0x3FFF_FFFF_FFFF_FFFF <= rhs.num * self.den <= 0x3FFF_FFFF_FFFF_FFFF,
            self.den * rhs.den <= u64::MAX,
        ensures
            r.value() == rat_sub(self.value(), rhs.value()),
            r.wf(),
    {
        proof {
            assert(self.den * rhs.den >= 1) by (nonlinear_arith)
                requires
                    self.den >= 1,
                    rhs.den >= 1,
            ;
        }
        let num: i128 = (self.num as i128) * (rhs.den as i128) - (rhs.num as i128) * (self.den
            as i128);
        Mm { num: num as i64, den: self.den * rhs.den }
    }
}

/// Rounded rational-to-pixel conversion on raw numerator and denominator,
/// saturated into the `usize` range.
pub(crate) fn exec_rat_to_px(num: i128, den: i128, dpi: usize) -> (r: usize)
    requires
        1 <= den <= 0x1_0000_0000_0000_0000_0000,
        -0x8000_0000_0000_0000 <= num <= 0x8000_0000_0000_0000,
        dpi <= u32::MAX,
    ensures
        r == clamp_px(rat_to_px(Rat { num: num as int, den: den as int }, dpi as int)),
{
    let ghost val = rat_to_px(Rat { num: num as int, den: den as int }, dpi as int);
    if num <= 0 {
        proof {
            let a = num * dpi * 10;
            let b = den * 254;
            assert(a <= 0 && b >= 254) by (nonlinear_arith)
                requires
                    num <= 0,
                    dpi >= 0,
                    den >= 1,
                    a == num * dpi * 10,
                    b == den * 254,
            ;
            if a == 0 {
                vstd::arithmetic::div_mod::lemma_basic_div(b, 2 * b);
                assert(val == 0);
            } else {
                vstd::arithmetic::div_mod::lemma_div_pos_is_pos(2 * (-a) + b, 2 * b);
                assert(val <= 0);
            }
        }
        0
    } else {
        let nm: u128 = num as u128;
        let dp: u128 = dpi as u128;
        proof {
            vstd::arithmetic::mul::lemma_mul_nonnegative(nm as int, dp as int);
            vstd::arithmetic::mul::lemma_mul_upper_bound(
                nm as int,
                0x8000_0000_0000_0000,
                dp as int,
                0x1_0000_0000,
            );
            assert(0x8000_0000_0000_0000 * 0x1_0000_0000 == 0x8000_0000_0000_0000_0000_0000int)
                by (nonlinear_arith);
            assert(nm * dp <= 0x8000_0000_0000_0000_0000_0000);
        }
        let p: u128 = nm * dp;
        let a: u128 = p * 10;
        let b: u128 = (den as u128) * 254;
        let q: u128 = (2 * a + b) / (2 * b);
        proof {
            assert(q == val);
        }
        if q > usize::MAX as u128 {
            usize::MAX
        } else {
            q as usize
        }
    }
}

/// An ordered pair of measurements: a width and a height.
#[derive(Clone, Copy, Debug, PartialEq, Eq, Structural)]
pub struct Size<T> {
    pub width: T,
    pub height: T,
}

impl<T> Size<T> {
    pub fn new(width: T, height: T) -> (r: Self)
        ensures
            r.width == width,
            r.height == height,
    {
        Size { width, height }
    }
}

impl Size<Mm> {
    pub open spec fn wf(self) -> bool {
        self.width.wf() && self.height.wf()
    }

    /// Convert each component independently to pixels at resolution `dpi`.
    /// No joint rounding takes place, so the converted pair need not
    /// preserve the exact original ratio.
    pub fn to_px(&self, dpi: usize) -> (r: Size<usize>)
        requires
            self.wf(),
            dpi <= u32::MAX,
        ensures
            r.width == clamp_px(self.width.spec_to_px(dpi as int)),
            r.height == clamp_px(self.height.spec_to_px(dpi as int)),
    {
        Size { width: self.width.to_px(dpi), height: self.height.to_px(dpi) }
    }

    /// Exact componentwise sum.
    pub fn plus(self, rhs: Size<Mm>) -> (r: Size<Mm>)
        requires
            self.wf(),
            rhs.wf(),
            -0x3FFF_FFFF_FFFF_FFFF <= self.width.num * rhs.width.den <= 0x3FFF_FFFF_FFFF_FFFF,
            -0x3FFF_FFFF_FFFF_FFFF <= rhs.width.num * self.width.den <= 0x3FFF_FFFF_FFFF_FFFF,
            self.width.den * rhs.width.den <= u64::MAX,
            -0x3FFF_FFFF_FFFF_FFFF <= self.height.num * rhs.height.den <= 0x3FFF_FFFF_FFFF_FFFF,
            -0x3FFF_FFFF_FFFF_FFFF <= rhs.height.num * self.height.den <= 0x3FFF_FFFF_FFFF_FFFF,
            self.height.den * rhs.height.den <= u64::MAX,
        ensures
            r.width.value() == rat_add(self.width.value(), rhs.width.value()),
            r.height.value() == rat_add(self.height.value(), rhs.height.value()),
            r.wf(),
    {
        Size { width: self.width.plus(rhs.width), height: self.height.plus(rhs.height) }
    }

    /// Exact componentwise difference; a negative component is a centering
    /// offset, never a size.
    pub fn minus(self, rhs: Size<Mm>) -> (r: Size<Mm>)
        requires
            self.wf(),
            rhs.wf(),
            -0x3FFF_FFFF_FFFF_FFFF <= self.width.num * rhs.width.den <= 0x3FFF_FFFF_FFFF_FFFF,
            -0x3FFF_FFFF_FFFF_FFFF <= rhs.width.num * self.width.den <= 0x3FFF_FFFF_FFFF_FFFF,
            self.width.den * rhs.width.den <= u64::MAX,
            -0x3FFF_FFFF_FFFF_FFFF <= self.height.num * rhs.height.den <= 0x3FFF_FFFF_FFFF_FFFF,
            -0x3FFF_FFFF_FFFF_FFFF <= rhs.height.num * self.height.den <= 0x3FFF_FFFF_FFFF_FFFF,
            self.height.den * rhs.height.den <= u64::MAX,
        ensures
            r.width.value() == rat_sub(self.width.value(), rhs.width.value()),
            r.height.value() == rat_sub(self.height.value(), rhs.height.value()),
            r.wf(),
    {
        Size { width: self.width.minus(rhs.width), height: self.height.minus(rhs.height) }
    }
}

impl Size<usize> {
    /// Exact physical size of a pixel grid at resolution `dpi`.
    pub fn to_mm(&self, dpi: usize) -> (r: Size<Mm>)
        requires
            1 <= dpi <= u32::MAX,
            self.width * 254 <= i64::MAX,
            self.height * 254 <= i64::MAX,
        ensures
            r.width.value() == rat_from_px(self.width as int, dpi as int),
            r.height.value() == rat_from_px(self.height as int, dpi as int),
            r.wf(),
    {
        Size { width: Mm::from_px(self.width, dpi), height: Mm::from_px(self.height, dpi) }
    }
}

/// The quotient `rounded_div(a, b)` differs from the exact rational `a / b`
/// by at most one half, so `2 * |rounded_div(a, b) * b - a| <= b`; it also
/// lies between `a / b` (floored) and `a / b + 1`.
pub proof fn lemma_rounded_div_bounds(a: int, b: int)
    requires
        a >= 0,
        b >= 1,
    ensures
        a / b <= rounded_div(a, b) <= a / b + 1,
        -b < 2 * (rounded_div(a, b) * b - a) <= b,
        rounded_div(a, b) >= 0,
{
    let q = a / b;
    let r = a % b;
    lemma_fundamental_div_mod(a, b);
    assert(a == b * q + r);
    assert(0 <= r < b);
    assert(q >= 0) by (nonlinear_arith)
        requires
            a >= 0,
            b >= 1,
            q == a / b,
    ;
    if 2 * r < b {
        assert(2 * a + b == (2 * b) * q + (2 * r + b)) by (nonlinear_arith)
            requires
                a == b * q + r,
        ;
        lemma_fundamental_div_mod_converse(2 * a + b, 2 * b, q, 2 * r + b);
        assert(rounded_div(a, b) == q);
        assert(q * b - a == -r) by (nonlinear_arith)
            requires
                a == b * q + r,
        ;
    } else {
        assert(2 * a + b == (2 * b) * (q + 1) + (2 * r - b)) by (nonlinear_arith)
            requires
                a == b * q + r,
        ;
        lemma_fundamental_div_mod_converse(2 * a + b, 2 * b, q + 1, 2 * r - b);
        assert(rounded_div(a, b) == q + 1);
        assert((q + 1) * b - a == b - r) by (nonlinear_arith)
            requires
                a == b * q + r,
        ;
    }
}

/// A linear upper bound on a rounded quotient: if `a <= c * b` then the
/// rounded quotient of `a` by `b` is at most `c + 1`.
pub proof fn lemma_rounded_div_le(a: int, b: int, c: int)
    requires
        b >= 1,
        c >= 0,
        a <= c * b,
    ensures
        rounded_div(a, b) <= c + 1,
{
    if a >= 0 {
        lemma_rounded_div_bounds(a, b);
        vstd::arithmetic::div_mod::lemma_div_is_ordered(a, c * b, b);
        vstd::arithmetic::div_mod::lemma_div_by_multiple(c, b);
        assert((c * b) / b == c);
    } else {
        vstd::arithmetic::div_mod::lemma_div_pos_is_pos(2 * (-a) + b, 2 * b);
    }
}

/// Unit conversion round-trip: for any positive length `l` and resolution
/// `dpi`, converting to pixels and exactly back differs from `l` by less
/// than one pixel's worth of physical distance, `25.4 / dpi` mm. With
/// `p = l.spec_to_px(dpi)`, the round-tripped length is `p * 25.4 / dpi`,
/// so the claim, scaled by the positive factor `10 * dpi * l.den`, reads
/// `|p * 254 * l.den - l.num * 10 * dpi| < 254 * l.den`.
pub proof fn lemma_round_trip(l: Mm, dpi: usize)
    requires
        l.wf(),
        l.num > 0,
        1 <= dpi <= u32::MAX,
    ensures
        ({
            let p = l.spec_to_px(dpi as int);
            let back = rat_from_px(p, dpi as int);
            -(254 * l.den) < back.num * l.den - l.num * 10 * dpi < 254 * l.den
        }),
{
    let a = l.num * dpi * 10;
    let b = l.den * 254;
    assert(a >= 0 && b >= 254) by (nonlinear_arith)
        requires
            l.num > 0,
            dpi >= 1,
            l.den >= 1,
            a == l.num * dpi * 10,
            b == l.den * 254,
    ;
    lemma_rounded_div_bounds(a, b);
    let p = rounded_div(a, b);
    assert(p * 254 * l.den == p * b && l.num * 10 * dpi == a) by (nonlinear_arith)
        requires
            b == l.den * 254,
            a == l.num * dpi * 10,
    ;
}

} // verus!
