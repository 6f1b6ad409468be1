//! Exact fractions, and clipping to the unit interval.

use vstd::prelude::*;

verus! {

/// A fraction of two mathematical integers. A denominator of zero stands
/// for "not a number"; a negative one is a denominator like any other, so
/// that `-1 / -2` is a half.
pub struct Frac {
    pub num: int,
    pub den: int,
}

impl Frac {
    /// Whether this fraction stands for a number.
    pub open spec fn is_number(self) -> bool {
        self.den != 0
    }

    /// Whether this fraction is a number between zero and one.
    pub open spec fn in_unit(self) -> bool {
        ||| self.den > 0 && 0 <= self.num <= self.den
        ||| self.den < 0 && self.den <= self.num <= 0
    }

    /// Equality of the two numbers, by cross multiplication.
    pub open spec fn same_value(self, other: Frac) -> bool {
        self.is_number() && other.is_number() && self.num * other.den == other.num * self.den
    }

    pub open spec fn zero() -> Frac {
        Frac { num: 0, den: 1 }
    }

    pub open spec fn one() -> Frac {
        Frac { num: 1, den: 1 }
    }
}

/// The fraction clipped to the unit interval: what is not a number, or is
/// zero or less, becomes zero; what is one or more becomes one.
pub open spec fn clip01_spec(f: Frac) -> Frac {
    if f.den == 0 {
        Frac::zero()
    } else if f.den > 0 {
        if f.num <= 0 {
            Frac::zero()
        } else if f.num >= f.den {
            Frac::one()
        } else {
            f
        }
    } else {
        if f.num >= 0 {
            Frac::zero()
        } else if f.num <= f.den {
            Frac::one()
        } else {
            f
        }
    }
}

/// The mean of two fractions. It is not a number when either of them is not.
pub open spec fn mean_spec(a: Frac, b: Frac) -> Frac {
    if a.den == 0 || b.den == 0 {
        Frac { num: 0, den: 0 }
    } else {
        Frac { num: a.num * b.den + b.num * a.den, den: 2 * a.den * b.den }
    }
}

/// An exact fraction held in machine integers.
#[derive(Clone, Copy, Debug, PartialEq, Eq)]
pub struct Ratio {
    pub num: i128,
    pub den: i128,
}

impl View for Ratio {
    type V = Frac;

    open spec fn view(&self) -> Frac {
        Frac { num: self.num as int, den: self.den as int }
    }
}

/// The largest numerator or denominator, in size, that `mean` takes.
pub const TERM_MAX: i128 = 0x100_0000_0000_0000;

impl Ratio {
    /// Whether both parts are small enough for `mean`.
    pub open spec fn is_term(self) -> bool {
        -TERM_MAX <= self.num <= TERM_MAX && -TERM_MAX <= self.den <= TERM_MAX
    }
}

/// The mean of two fractions.
pub fn mean(a: Ratio, b: Ratio) -> (out: Ratio)
    requires
        a.is_term(),
        b.is_term(),
    ensures
        out@ == mean_spec(a@, b@),
{
    if a.den == 0 || b.den == 0 {
        Ratio { num: 0, den: 0 }
    } else {
        let (an, ad, bn, bd) = (a.num, a.den, b.num, b.den);
        assert(-0x1_0000_0000_0000_0000_0000_0000_0000 <= an * bd
            <= 0x1_0000_0000_0000_0000_0000_0000_0000) by (nonlinear_arith)
            requires
                -0x100_0000_0000_0000 <= an <= 0x100_0000_0000_0000,
                -0x100_0000_0000_0000 <= bd <= 0x100_0000_0000_0000,
        ;
        assert(-0x1_0000_0000_0000_0000_0000_0000_0000 <= bn * ad
            <= 0x1_0000_0000_0000_0000_0000_0000_0000) by (nonlinear_arith)
            requires
                -0x100_0000_0000_0000 <= bn <= 0x100_0000_0000_0000,
                -0x100_0000_0000_0000 <= ad <= 0x100_0000_0000_0000,
        ;
        assert(-0x1_0000_0000_0000_0000_0000_0000_0000 <= ad * bd
            <= 0x1_0000_0000_0000_0000_0000_0000_0000) by (nonlinear_arith)
            requires
                -0x100_0000_0000_0000 <= ad <= 0x100_0000_0000_0000,
                -0x100_0000_0000_0000 <= bd <= 0x100_0000_0000_0000,
        ;
        assert(2 * ad * bd == 2 * (ad * bd)) by (nonlinear_arith);
        Ratio { num: an * bd + bn * ad, den: 2 * (ad * bd) }
    }
}

/// Clips a fraction to the unit interval.
pub fn clip01(r: Ratio) -> (out: Ratio)
    ensures
        out@ == clip01_spec(r@),
        out@.in_unit(),
{
    if r.den == 0 {
        Ratio { num: 0, den: 1 }
    } else if r.den > 0 {
        if r.num <= 0 {
            Ratio { num: 0, den: 1 }
        } else if r.num >= r.den {
            Ratio { num: 1, den: 1 }
        } else {
            r
        }
    } else {
        if r.num >= 0 {
            Ratio { num: 0, den: 1 }
        } else if r.num <= r.den {
            Ratio { num: 1, den: 1 }
        } else {
            r
        }
    }
}

/// Clipping lands in the unit interval, and clipping what was clipped
/// changes nothing.
pub proof fn lemma_clip01_idempotent(f: Frac)
    ensures
        clip01_spec(f).in_unit(),
        clip01_spec(clip01_spec(f)) == clip01_spec(f),
{
}

/// Clipping leaves a number of the unit interval as it is, up to the way
/// its ends are written.
pub proof fn lemma_clip01_keeps_unit(f: Frac)
    requires
        f.in_unit(),
    ensures
        clip01_spec(f).same_value(f),
{
    let c = clip01_spec(f);
    let (cn, cd, n, d) = (c.num, c.den, f.num, f.den);
    if n == 0 {
        assert(cn * d == n * cd) by (nonlinear_arith)
            requires
                cn == 0,
                n == 0,
        ;
    } else if n == d {
        assert(cn * d == n * cd) by (nonlinear_arith)
            requires
                cn == 1,
                cd == 1,
                n == d,
        ;
    }
}

/// A number below zero clips to zero and a number above one to one,
/// whatever the sign of the denominator.
pub proof fn lemma_clip01_ends(f: Frac)
    requires
        f.is_number(),
    ensures
        f.num * f.den <= 0 ==> clip01_spec(f) == Frac::zero(),
        f.num * f.den >= f.den * f.den ==> clip01_spec(f) == Frac::one(),
        0 < f.num * f.den < f.den * f.den ==> clip01_spec(f) == f,
{
    let (n, d) = (f.num, f.den);
    assert(n * d <= 0 <==> (d > 0 && n <= 0) || (d < 0 && n >= 0)) by (nonlinear_arith)
        requires
            d != 0,
    ;
    assert(n * d >= d * d <==> (d > 0 && n >= d) || (d < 0 && n <= d)) by (nonlinear_arith)
        requires
            d != 0,
    ;
}

} // verus!
