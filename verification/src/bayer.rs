//! The sensor mosaic: the four tile layouts, image dimensions and the
//! calibration of one mosaic site.

use vstd::prelude::*;
use crate::imgop::Frac;
use crate::imgop::Ratio;

verus! {

/// The layout of the 2x2 tile that is repeated over the sensor. The sites
/// of a tile are numbered row by row: 0 top left, 1 top right, 2 bottom
/// left, 3 bottom right.
///
/// Calibration is held per channel slot: 0 red, 1 green, 2 blue, 3 second
/// green. The pattern says which slot a site belongs to.
#[derive(Clone, Copy, Debug, PartialEq, Eq, Structural)]
pub enum BayerPattern {
    RGGB,
    BGGR,
    GBRG,
    GRBG,
}

impl BayerPattern {
    /// The site of a tile that holds red.
    pub open spec fn red_site(self) -> int {
        match self {
            BayerPattern::RGGB => 0,
            BayerPattern::BGGR => 3,
            BayerPattern::GBRG => 2,
            BayerPattern::GRBG => 1,
        }
    }

    /// The site of a tile that holds blue.
    pub open spec fn blue_site(self) -> int {
        match self {
            BayerPattern::RGGB => 3,
            BayerPattern::BGGR => 0,
            BayerPattern::GBRG => 1,
            BayerPattern::GRBG => 2,
        }
    }

    /// The first of the two sites of a tile that hold green.
    pub open spec fn green_site_a(self) -> int {
        match self {
            BayerPattern::RGGB => 1,
            BayerPattern::BGGR => 1,
            BayerPattern::GBRG => 0,
            BayerPattern::GRBG => 0,
        }
    }

    /// The second of the two sites of a tile that hold green.
    pub open spec fn green_site_b(self) -> int {
        match self {
            BayerPattern::RGGB => 2,
            BayerPattern::BGGR => 2,
            BayerPattern::GBRG => 3,
            BayerPattern::GRBG => 3,
        }
    }

    /// The channel slot of a site. The red site has slot 0 and the blue
    /// site slot 2. Of the two green sites, the one that comes first in
    /// the tile has slot 1; the other has slot 3 where the second green
    /// is in use, and slot 1 too where it is not.
    pub open spec fn slot_of(self, site: int, second_green: bool) -> int {
        if site == self.red_site() {
            0
        } else if site == self.blue_site() {
            2
        } else if site == self.green_site_b() && second_green {
            3
        } else {
            1
        }
    }

    /// The sites of a tile in the order red, first green, second green,
    /// blue.
    pub fn rgb_sites(self) -> (out: (usize, usize, usize, usize))
        ensures
            out.0 == self.red_site(),
            out.1 == self.green_site_a(),
            out.2 == self.green_site_b(),
            out.3 == self.blue_site(),
    {
        match self {
            BayerPattern::RGGB => (0, 1, 2, 3),
            BayerPattern::BGGR => (3, 1, 2, 0),
            BayerPattern::GBRG => (2, 0, 3, 1),
            BayerPattern::GRBG => (1, 0, 3, 2),
        }
    }
}

/// Width and height of a pixel grid.
#[derive(Clone, Copy, Debug, PartialEq, Eq, Structural)]
pub struct Dim2 {
    pub w: usize,
    pub h: usize,
}

/// The largest numerator or denominator of a gain that the exact
/// arithmetic of the reconstruction has room for.
pub const GAIN_MAX: u64 = 0xff_ffff_ffff;

/// A white-balance multiplier as an exact fraction. A denominator of zero
/// marks a channel slot that is not in use: such a gain is not a number,
/// and neither is anything computed from it.
#[derive(Clone, Copy, Debug, PartialEq, Eq, Structural)]
pub struct Gain {
    pub num: u64,
    pub den: u64,
}

impl Gain {
    /// Whether both parts are small enough for the exact arithmetic.
    pub open spec fn in_range(self) -> bool {
        self.num <= GAIN_MAX && self.den <= GAIN_MAX
    }

    /// Whether this gain marks a slot that is not in use.
    pub open spec fn is_unused(self) -> bool {
        self.den == 0
    }

    /// Whether both parts are small enough for the exact arithmetic.
    pub fn fits(self) -> (out: bool)
        ensures
            out == self.in_range(),
    {
        self.num <= GAIN_MAX && self.den <= GAIN_MAX
    }

    /// The multiplier one.
    pub fn one() -> (out: Gain)
        ensures
            out == (Gain { num: 1, den: 1 }),
            out.in_range(),
    {
        Gain { num: 1, den: 1 }
    }

    /// The mark of a slot that is not in use.
    pub fn unused() -> (out: Gain)
        ensures
            out == (Gain { num: 0, den: 0 }),
            out.in_range(),
            out.is_unused(),
    {
        Gain { num: 0, den: 0 }
    }
}

/// Whether every one of the four gains is small enough for the exact
/// arithmetic.
pub open spec fn gains_in_range(wb: Seq<Gain>) -> bool {
    wb.len() == 4 && forall|i: int| 0 <= i < 4 ==> (#[trigger] wb[i]).in_range()
}

/// Whether the gains have a second green of their own: whether the gain
/// of slot 3 is in use.
pub open spec fn second_green_in_use(wb: Seq<Gain>) -> bool {
    !wb[3].is_unused()
}

/// Whether the white level lies above the black level in every channel
/// slot that is in use: red, green and blue, and the second green where
/// the gains have one.
pub open spec fn levels_ordered(black: Seq<u16>, white: Seq<u16>, wb: Seq<Gain>) -> bool {
    &&& black.len() == 4
    &&& white.len() == 4
    &&& wb.len() == 4
    &&& forall|slot: int|
        0 <= slot < 4 && (slot < 3 || second_green_in_use(wb)) ==> black[slot] < #[trigger] white[slot]
}

/// Whether the white level lies above the black level in every channel
/// slot that is in use.
pub fn levels_fit(black_level: &[u16; 4], white_level: &[u16; 4], wb_coeff: &[Gain; 4]) -> (out:
    bool)
    ensures
        out == levels_ordered(black_level@, white_level@, wb_coeff@),
{
    black_level[0] < white_level[0] && black_level[1] < white_level[1] && black_level[2]
        < white_level[2] && (wb_coeff[3].den == 0 || black_level[3] < white_level[3])
}

/// Whether every one of the four gains is small enough for the exact
/// arithmetic.
pub fn gains_fit(wb: &[Gain; 4]) -> (out: bool)
    ensures
        out == gains_in_range(wb@),
{
    wb[0].fits() && wb[1].fits() && wb[2].fits() && wb[3].fits()
}

/// A raw sample with the black level taken off, divided by the distance
/// from black to white and multiplied by the gain.
pub open spec fn scaled_spec(p: u16, black: u16, white: u16, gain: Gain) -> Frac {
    Frac { num: (p - black) * gain.num, den: (white - black) * gain.den }
}

/// Calibrates one raw sample.
pub fn scale_site(p: u16, black: u16, white: u16, gain: Gain) -> (out: Ratio)
    requires
        gain.in_range(),
    ensures
        out@ == scaled_spec(p, black, white, gain),
        out.is_term(),
{
    let d: i128 = p as i128 - black as i128;
    let r: i128 = white as i128 - black as i128;
    let n: i128 = gain.num as i128;
    let m: i128 = gain.den as i128;
    assert(-0x100_0000_0000_0000 <= d * n <= 0x100_0000_0000_0000) by (nonlinear_arith)
        requires
            -0x1_0000 <= d <= 0x1_0000,
            0 <= n <= 0x100_0000_0000,
    ;
    assert(-0x100_0000_0000_0000 <= r * m <= 0x100_0000_0000_0000) by (nonlinear_arith)
        requires
            -0x1_0000 <= r <= 0x1_0000,
            0 <= m <= 0x100_0000_0000,
    ;
    Ratio { num: d * n, den: r * m }
}

} // verus!
