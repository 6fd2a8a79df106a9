//! Box-model primitives: positions, sizes, optional sizes and exact
//! rational scalars, all in whole pixel units.

use vstd::prelude::*;
use vstd::arithmetic::div_mod::{lemma_div_is_ordered, lemma_div_multiples_vanish};
use vstd::math::abs;

verus! {

/// Largest pixel value a single style declaration may carry.
pub const MAX_STYLE_PX: i64 = 1_000_000;

/// Largest number of nodes a laid-out tree may hold.
pub const MAX_NODES: usize = 4096;

/// Largest magnitude accepted for an externally supplied coordinate.
pub const MAX_POS: i64 = 0x4_0000_0000_0000;

/// A point in the plane, in pixels.
#[derive(Clone, Copy, Debug, PartialEq, Eq, Structural)]
pub struct Position {
    pub x: i64,
    pub y: i64,
}

/// An extent in the plane, in pixels.
#[derive(Clone, Copy, Debug, PartialEq, Eq, Structural)]
pub struct Size {
    pub width: i64,
    pub height: i64,
}

/// A style-requested size; an unset axis means "use the natural size".
#[derive(Clone, Copy, Debug, PartialEq, Eq, Structural)]
pub struct OptionalSize {
    pub width: Option<i64>,
    pub height: Option<i64>,
}

/// A pair of horizontal and vertical pixel amounts.
#[derive(Clone, Copy, Debug, PartialEq, Eq, Structural)]
pub struct Space {
    pub horizontal: i64,
    pub vertical: i64,
}

impl Position {
    pub open spec fn spec_zero() -> Position {
        Position { x: 0, y: 0 }
    }

    pub fn zero() -> (r: Position)
        ensures
            r == Position::spec_zero(),
    {
        Position { x: 0, y: 0 }
    }
}

impl Default for Position {
    fn default() -> (r: Position)
        ensures
            r == Position::spec_zero(),
    {
        Position::zero()
    }
}

impl Size {
    pub open spec fn spec_zero() -> Size {
        Size { width: 0, height: 0 }
    }

    pub fn zero() -> (r: Size)
        ensures
            r == Size::spec_zero(),
    {
        Size { width: 0, height: 0 }
    }
}

impl Default for Size {
    fn default() -> (r: Size)
        ensures
            r == Size::spec_zero(),
    {
        Size::zero()
    }
}

impl OptionalSize {
    pub open spec fn spec_unset() -> OptionalSize {
        OptionalSize { width: None, height: None }
    }

    pub fn unset() -> (r: OptionalSize)
        ensures
            r == OptionalSize::spec_unset(),
    {
        OptionalSize { width: None, height: None }
    }
}

impl Default for OptionalSize {
    fn default() -> (r: OptionalSize)
        ensures
            r == OptionalSize::spec_unset(),
    {
        OptionalSize::unset()
    }
}

/// The effective size of an element: for each axis independently, the
/// requested value when one is set, otherwise the natural value.
pub open spec fn spec_effective_size(requested: OptionalSize, natural: Size) -> Size {
    Size {
        width: match requested.width {
            Some(w) => w,
            None => natural.width,
        },
        height: match requested.height {
            Some(h) => h,
            None => natural.height,
        },
    }
}

/// Resolves the size actually used for layout from a requested and a
/// natural size.
pub fn estimate_effective_size(requested: &OptionalSize, natural: &Size) -> (r: Size)
    ensures
        r == spec_effective_size(*requested, *natural),
{
    Size {
        width: match requested.width {
            Some(w) => w,
            None => natural.width,
        },
        height: match requested.height {
            Some(h) => h,
            None => natural.height,
        },
    }
}

/// An exact non-negative-denominator rational scalar, used for scroll
/// positions (in `[0, 1]`) and scrollbar thumb-to-track ratios.
#[derive(Clone, Copy, Debug, PartialEq, Eq, Structural)]
pub struct Frac {
    pub num: i64,
    pub den: i64,
}

impl Frac {
    /// A fraction this library computes with: the denominator is positive
    /// and the numerator no larger in magnitude.
    pub open spec fn wf(self) -> bool {
        1 <= self.den && -(self.den as int) <= self.num as int <= self.den as int
    }

    /// A fraction that denotes a proportion in `[0, 1]`.
    pub open spec fn is_proportion(self) -> bool {
        1 <= self.den && 0 <= self.num <= self.den
    }

    pub open spec fn spec_zero() -> Frac {
        Frac { num: 0, den: 1 }
    }

    pub open spec fn spec_one() -> Frac {
        Frac { num: 1, den: 1 }
    }

    pub fn zero() -> (r: Frac)
        ensures
            r == Frac::spec_zero(),
    {
        Frac { num: 0, den: 1 }
    }

    pub fn one() -> (r: Frac)
        ensures
            r == Frac::spec_one(),
    {
        Frac { num: 1, den: 1 }
    }
}

/// Mathematical product of a pixel amount and a fraction, truncated
/// toward zero.
pub open spec fn spec_mul_frac(v: int, f: Frac) -> int {
    let p = v * f.num;
    if p >= 0 {
        p / (f.den as int)
    } else {
        -((-p) / (f.den as int))
    }
}

/// The truncated product never exceeds the pixel amount in magnitude.
pub proof fn lemma_mul_frac_bound(v: int, f: Frac)
    requires
        f.wf(),
    ensures
        -abs(v) <= spec_mul_frac(v, f) <= abs(v),
{
    let p = v * f.num;
    let d = f.den as int;
    let m = if p >= 0 { p } else { -p };
    let n = f.num as int;
    assert(m >= 0);
    assert(m <= abs(v) * d) by (nonlinear_arith)
        requires
            m == (if v * n >= 0 { v * n } else { -(v * n) }),
            -d <= n <= d,
            1 <= d,
            abs(v) == (if v >= 0 { v } else { -v }),
    ;
    lemma_div_is_ordered(m, abs(v) * d, d);
    lemma_div_multiples_vanish(abs(v) as int, d);
    assert(abs(v) * d == d * (abs(v) as int)) by (nonlinear_arith);
    assert(m / d <= abs(v));
    assert(m / d >= 0) by {
        lemma_div_is_ordered(0, m, d);
    }
}

/// Computes `v * f.num / f.den`, truncated toward zero.
pub fn mul_frac(v: i64, f: Frac) -> (r: i64)
    requires
        f.wf(),
        -0x7fff_ffff_ffff_fff0 < v < 0x7fff_ffff_ffff_fff0,
    ensures
        r as int == spec_mul_frac(v as int, f),
{
    proof {
        lemma_mul_frac_bound(v as int, f);
    }
    let neg_v: bool = v < 0;
    let mv: u128 = if neg_v { (-v) as u128 } else { v as u128 };
    let neg_n: bool = f.num < 0;
    let mn: u128 = if neg_n { (-(f.num)) as u128 } else { f.num as u128 };
    let md: u128 = f.den as u128;
    proof {
        let vi = v as int;
        let ni = f.num as int;
        let p = vi * ni;
        let m = if p >= 0 { p } else { -p };
        assert((mv as int) * (mn as int) == m) by (nonlinear_arith)
            requires
                mv as int == (if vi >= 0 { vi } else { -vi }),
                mn as int == (if ni >= 0 { ni } else { -ni }),
                m == (if vi * ni >= 0 { vi * ni } else { -(vi * ni) }),
        ;
        assert(mv * mn < 0x4000_0000_0000_0000_0000_0000_0000_0000u128) by (nonlinear_arith)
            requires
                mv < 0x8000_0000_0000_0000u128,
                mn < 0x8000_0000_0000_0000u128,
        ;
    }
    let q: u128 = (mv * mn) / md;
    proof {
        let vi = v as int;
        let ni = f.num as int;
        let p = vi * ni;
        let m = if p >= 0 { p } else { -p };
        lemma_mul_frac_bound(v as int, f);
        assert(q as int == m / (f.den as int));
        assert(q as int <= abs(v as int));
        assert((vi * ni >= 0) == ((vi >= 0 && ni >= 0) || (vi <= 0 && ni <= 0))) by (nonlinear_arith);
    }
    if (neg_v && !neg_n && f.num != 0) || (neg_n && !neg_v && v != 0) {
        -(q as i64)
    } else {
        q as i64
    }
}

} // verus!
