//! Colour reconstruction by averaging: every 2x2 tile of the mosaic gives
//! one colour pixel, so the result has a quarter of the input's pixels.

use rayon::iter::ParallelIterator;
use rayon::slice::ParallelSlice;
use vstd::prelude::*;
use crate::bayer::gains_in_range;
use crate::bayer::levels_ordered;
use crate::bayer::scale_site;
use crate::bayer::scaled_spec;
use crate::bayer::second_green_in_use;
use crate::bayer::BayerPattern;
use crate::bayer::Dim2;
use crate::bayer::Gain;
use crate::imgop::clip01;
use crate::imgop::clip01_spec;
use crate::imgop::mean;
use crate::imgop::mean_spec;
use crate::imgop::Frac;
use crate::imgop::Ratio;

verus! {

/// The raw sample at a site of the tile in column `tx` and row `ty` of the
/// tile grid, in a mosaic of width `w` stored row by row.
pub open spec fn tile_sample(pixels: Seq<u16>, w: int, tx: int, ty: int, site: int) -> u16 {
    pixels[(2 * ty + site / 2) * w + 2 * tx + site % 2]
}

/// The calibrated value at a site of a tile. Black level, white level and
/// gain are those of the channel slot that the pattern gives the site.
pub open spec fn site_value(
    pixels: Seq<u16>,
    pattern: BayerPattern,
    w: int,
    black: Seq<u16>,
    white: Seq<u16>,
    wb: Seq<Gain>,
    tx: int,
    ty: int,
    site: int,
) -> Frac {
    let slot = pattern.slot_of(site, second_green_in_use(wb));
    scaled_spec(tile_sample(pixels, w, tx, ty, site), black[slot], white[slot], wb[slot])
}

/// Component `c` (0 red, 1 green, 2 blue) of the colour of a tile: red and
/// blue are the values at the pattern's red and blue sites, green is the
/// mean of the values at its two green sites, and each is clipped to the
/// unit interval.
pub open spec fn tile_component(
    pixels: Seq<u16>,
    pattern: BayerPattern,
    w: int,
    black: Seq<u16>,
    white: Seq<u16>,
    wb: Seq<Gain>,
    tx: int,
    ty: int,
    c: int,
) -> Frac {
    if c == 0 {
        clip01_spec(site_value(pixels, pattern, w, black, white, wb, tx, ty, pattern.red_site()))
    } else if c == 1 {
        clip01_spec(
            mean_spec(
                site_value(pixels, pattern, w, black, white, wb, tx, ty, pattern.green_site_a()),
                site_value(pixels, pattern, w, black, white, wb, tx, ty, pattern.green_site_b()),
            ),
        )
    } else {
        clip01_spec(site_value(pixels, pattern, w, black, white, wb, tx, ty, pattern.blue_site()))
    }
}

/// The colour of one tile, given its four raw samples row by row.
pub fn debayer_tile(
    p: [u16; 4],
    pattern: BayerPattern,
    black_level: &[u16; 4],
    white_level: &[u16; 4],
    wb_coeff: &[Gain; 4],
) -> (out: [Ratio; 3])
    requires
        gains_in_range(wb_coeff@),
        levels_ordered(black_level@, white_level@, wb_coeff@),
    ensures
        forall|c: int|
            0 <= c < 3 ==> (#[trigger] out[c])@ == tile_component(
                p@,
                pattern,
                2,
                black_level@,
                white_level@,
                wb_coeff@,
                0,
                0,
                c,
            ),
        forall|c: int| 0 <= c < 3 ==> (#[trigger] out[c])@.in_unit(),
{
    let (r, ga, gb, b) = pattern.rgb_sites();
    let g2: usize = if wb_coeff[3].den != 0 {
        3
    } else {
        1
    };
    let red = scale_site(p[r], black_level[0], white_level[0], wb_coeff[0]);
    let green_a = scale_site(p[ga], black_level[1], white_level[1], wb_coeff[1]);
    let green_b = scale_site(p[gb], black_level[g2], white_level[g2], wb_coeff[g2]);
    let blue = scale_site(p[b], black_level[2], white_level[2], wb_coeff[2]);
    [clip01(red), clip01(mean(green_a, green_b)), clip01(blue)]
}

/// Whether `row` holds the colours of the tiles of one pair of mosaic rows,
/// `s`, from left to right.
pub open spec fn row_pair_matches(
    row: Seq<[Ratio; 3]>,
    s: Seq<u16>,
    pattern: BayerPattern,
    w: int,
    black: Seq<u16>,
    white: Seq<u16>,
    wb: Seq<Gain>,
) -> bool {
    &&& row.len() == w / 2
    &&& forall|tx: int, c: int|
        0 <= tx < w / 2 && 0 <= c < 3 ==> row[tx][c]@ == #[trigger] tile_component(
            s,
            pattern,
            w,
            black,
            white,
            wb,
            tx,
            0,
            c,
        )
}

/// The upper two sites of a tile lie in its first mosaic row, the lower
/// two in its second.
proof fn lemma_site_row(site: int, w: int)
    requires
        0 <= site < 4,
    ensures
        (2 * 0 + site / 2) * w == (site / 2) * w,
        site < 2 ==> (site / 2) * w == 0,
        site >= 2 ==> (site / 2) * w == w,
{
    let a = site / 2;
    if site < 2 {
        assert(a * w == 0) by (nonlinear_arith)
            requires
                a == 0,
        ;
    } else {
        assert(a * w == w) by (nonlinear_arith)
            requires
                a == 1,
        ;
    }
}

/// A tile's colour depends on its own four samples only.
proof fn lemma_tile_alone(
    pixels: Seq<u16>,
    tile: Seq<u16>,
    pattern: BayerPattern,
    w: int,
    black: Seq<u16>,
    white: Seq<u16>,
    wb: Seq<Gain>,
    tx: int,
    ty: int,
    c: int,
)
    requires
        forall|site: int| 0 <= site < 4 ==> tile[site] == #[trigger] tile_sample(pixels, w, tx, ty, site),
    ensures
        tile_component(tile, pattern, 2, black, white, wb, 0, 0, c) == tile_component(
            pixels,
            pattern,
            w,
            black,
            white,
            wb,
            tx,
            ty,
            c,
        ),
{
    assert forall|site: int| 0 <= site < 4 implies tile_sample(tile, 2, 0, 0, site)
        == tile_sample(pixels, w, tx, ty, site) by {
        assert(tile[site] == tile_sample(pixels, w, tx, ty, site));
    }
    assert(tile_sample(tile, 2, 0, 0, 0) == tile_sample(pixels, w, tx, ty, 0));
    assert(tile_sample(tile, 2, 0, 0, 1) == tile_sample(pixels, w, tx, ty, 1));
    assert(tile_sample(tile, 2, 0, 0, 2) == tile_sample(pixels, w, tx, ty, 2));
    assert(tile_sample(tile, 2, 0, 0, 3) == tile_sample(pixels, w, tx, ty, 3));
}

/// The colours of the tiles of one pair of mosaic rows, from left to
/// right.
pub fn debayer_row_pair(
    s: &[u16],
    w: usize,
    pattern: BayerPattern,
    black_level: &[u16; 4],
    white_level: &[u16; 4],
    wb_coeff: &[Gain; 4],
) -> (out: Vec<[Ratio; 3]>)
    requires
        s.len() == 2 * w,
        w % 2 == 0,
        gains_in_range(wb_coeff@),
        levels_ordered(black_level@, white_level@, wb_coeff@),
    ensures
        row_pair_matches(out@, s@, pattern, w as int, black_level@, white_level@, wb_coeff@),
{
    let half: usize = w / 2;
    let mut out: Vec<[Ratio; 3]> = Vec::with_capacity(half);
    let mut tx: usize = 0;
    while tx < half
        invariant
            s.len() == 2 * w,
            w % 2 == 0,
            half == w / 2,
            tx <= half,
            gains_in_range(wb_coeff@),
            levels_ordered(black_level@, white_level@, wb_coeff@),
            out.len() == tx,
            forall|x: int, c: int|
                0 <= x < tx && 0 <= c < 3 ==> out[x][c]@ == #[trigger] tile_component(
                    s@,
                    pattern,
                    w as int,
                    black_level@,
                    white_level@,
                    wb_coeff@,
                    x,
                    0,
                    c,
                ),
        decreases half - tx,
    {
        let tile = [s[2 * tx], s[2 * tx + 1], s[w + 2 * tx], s[w + 2 * tx + 1]];
        let colour = debayer_tile(tile, pattern, black_level, white_level, wb_coeff);
        proof {
            assert forall|site: int| 0 <= site < 4 implies tile@[site] == #[trigger] tile_sample(
                s@,
                w as int,
                tx as int,
                0,
                site,
            ) by {
                lemma_site_row(site, w as int);
            }
            assert forall|c: int| 0 <= c < 3 implies colour[c]@ == tile_component(
                s@,
                pattern,
                w as int,
                black_level@,
                white_level@,
                wb_coeff@,
                tx as int,
                0,
                c,
            ) by {
                lemma_tile_alone(
                    s@,
                    tile@,
                    pattern,
                    w as int,
                    black_level@,
                    white_level@,
                    wb_coeff@,
                    tx as int,
                    0,
                    c,
                );
            }
        }
        out.push(colour);
        tx = tx + 1;
    }
    out
}

/// The pair of mosaic rows `ty`, cut out of the mosaic, gives the same
/// colours as the tiles of row `ty` of the tile grid.
proof fn lemma_row_pair_cut(
    pixels: Seq<u16>,
    pattern: BayerPattern,
    w: int,
    black: Seq<u16>,
    white: Seq<u16>,
    wb: Seq<Gain>,
    tx: int,
    ty: int,
    c: int,
)
    requires
        0 <= tx < w / 2,
        w % 2 == 0,
        0 <= ty,
        (ty + 1) * (2 * w) <= pixels.len(),
    ensures
        tile_component(
            pixels.subrange(ty * (2 * w), (ty + 1) * (2 * w)),
            pattern,
            w,
            black,
            white,
            wb,
            tx,
            0,
            c,
        ) == tile_component(pixels, pattern, w, black, white, wb, tx, ty, c),
{
    let cut = pixels.subrange(ty * (2 * w), (ty + 1) * (2 * w));
    assert((ty + 1) * (2 * w) == ty * (2 * w) + 2 * w) by (nonlinear_arith);
    assert(0 <= ty * (2 * w)) by (nonlinear_arith)
        requires
            0 <= ty,
            0 <= w,
    ;
    assert forall|site: int| 0 <= site < 4 implies tile_sample(cut, w, tx, 0, site)
        == tile_sample(pixels, w, tx, ty, site) by {
        let a = site / 2;
        assert((2 * ty + a) * w == ty * (2 * w) + a * w) by (nonlinear_arith);
        lemma_site_row(site, w);
    }
    assert(tile_sample(cut, w, tx, 0, 0) == tile_sample(pixels, w, tx, ty, 0));
    assert(tile_sample(cut, w, tx, 0, 1) == tile_sample(pixels, w, tx, ty, 1));
    assert(tile_sample(cut, w, tx, 0, 2) == tile_sample(pixels, w, tx, ty, 2));
    assert(tile_sample(cut, w, tx, 0, 3) == tile_sample(pixels, w, tx, ty, 3));
}

/// Whether `rgb` holds the colours of the first `rgb.len()` tiles of the
/// mosaic, row by row of the tile grid.
pub open spec fn tiles_in_order(
    rgb: Seq<[Ratio; 3]>,
    pixels: Seq<u16>,
    pattern: BayerPattern,
    w: int,
    black: Seq<u16>,
    white: Seq<u16>,
    wb: Seq<Gain>,
) -> bool {
    forall|k: int, c: int|
        0 <= k < rgb.len() && 0 <= c < 3 ==> (#[trigger] rgb[k][c])@ == tile_component(
            pixels,
            pattern,
            w,
            black,
            white,
            wb,
            k % (w / 2),
            k / (w / 2),
            c,
        )
}

/// Reconstructs every pair of mosaic rows on rayon's thread pool.
///
/// Calls `par_chunks_exact`, `map` and `collect` of rayon. The contract
/// claims of them that the slice is cut into consecutive pieces of
/// `chunk` samples, a shorter rest left out; that the closure, which is
/// one call of `debayer_row_pair`, is applied to every piece; and that
/// the results are collected in the order of the pieces.
#[verifier::external_body]
fn par_row_pairs(
    pixels: &Vec<u16>,
    chunk: usize,
    w: usize,
    pattern: BayerPattern,
    black_level: &[u16; 4],
    white_level: &[u16; 4],
    wb_coeff: &[Gain; 4],
) -> (rows: Vec<Vec<[Ratio; 3]>>)
    requires
        0 < w,
        w % 2 == 0,
        chunk == 2 * w,
        gains_in_range(wb_coeff@),
        levels_ordered(black_level@, white_level@, wb_coeff@),
    ensures
        rows.len() == pixels.len() / chunk,
        forall|i: int|
            0 <= i < rows.len() ==> row_pair_matches(
                (#[trigger] rows[i])@,
                pixels@.subrange(i * chunk, (i + 1) * chunk),
                pattern,
                w as int,
                black_level@,
                white_level@,
                wb_coeff@,
            ),
{
    pixels
        .par_chunks_exact(chunk)
        .map(|s| debayer_row_pair(s, w, pattern, black_level, white_level, wb_coeff))
        .collect()
}

/// Reconstructs colour from a mosaic by averaging: each 2x2 tile gives one
/// colour pixel, so the result has half the width and half the height.
///
/// Black level, white level and gain are given per channel slot: red,
/// green, blue and second green. A sample is calibrated with those of the
/// slot that the pattern gives its site; where the gain of the second
/// green marks it as not in use, both green sites take the slot of the
/// first. A component whose gain is not a number comes out as zero.
pub fn debayer_superpixel(
    pixels: &Vec<u16>,
    pattern: BayerPattern,
    dim: Dim2,
    black_level: &[u16; 4],
    white_level: &[u16; 4],
    wb_coeff: &[Gain; 4],
) -> (out: (Vec<[Ratio; 3]>, usize, usize))
    requires
        pixels.len() == dim.w * dim.h,
        dim.w % 2 == 0,
        dim.h % 2 == 0,
        gains_in_range(wb_coeff@),
        levels_ordered(black_level@, white_level@, wb_coeff@),
    ensures
        out.1 == dim.w / 2,
        out.2 == dim.h / 2,
        out.0.len() == (dim.w / 2) * (dim.h / 2),
        forall|k: int, c: int| 0 <= k < out.0.len() && 0 <= c < 3 ==> (#[trigger] out.0[k][c])@.in_unit(),
        forall|tx: int, ty: int, c: int|
            0 <= tx < dim.w / 2 && 0 <= ty < dim.h / 2 && 0 <= c < 3 ==> out.0[ty * (dim.w / 2)
                + tx][c]@ == #[trigger] tile_component(
                pixels@,
                pattern,
                dim.w as int,
                black_level@,
                white_level@,
                wb_coeff@,
                tx,
                ty,
                c,
            ),
{
    let half_w: usize = dim.w / 2;
    let half_h: usize = dim.h / 2;
    let mut rgb: Vec<[Ratio; 3]> = Vec::new();
    if dim.w == 0 || dim.h == 0 {
        assert(half_w * half_h == 0) by (nonlinear_arith)
            requires
                half_w == 0 || half_h == 0,
        ;
        return (rgb, half_w, half_h);
    }
    proof {
        let (w, h, hh) = (dim.w as int, dim.h as int, half_h as int);
        assert(w * h == (2 * w) * hh) by (nonlinear_arith)
            requires
                h == 2 * hh,
        ;
        assert(2 * w <= (2 * w) * hh) by (nonlinear_arith)
            requires
                0 < w,
                1 <= hh,
        ;
        vstd::arithmetic::div_mod::lemma_div_multiples_vanish(hh, 2 * w);
        assert((2 * w) * hh == hh * (2 * w)) by (nonlinear_arith);
    }
    let chunk: usize = 2 * dim.w;
    let rows = par_row_pairs(pixels, chunk, dim.w, pattern, black_level, white_level, wb_coeff);
    let mut ty: usize = 0;
    while ty < half_h
        invariant
            0 < dim.w,
            dim.w % 2 == 0,
            half_w == dim.w / 2,
            pixels.len() == (2 * dim.w) * half_h,
            rows.len() == half_h,
            ty <= half_h,
            rgb.len() == ty * half_w,
            forall|i: int|
                0 <= i < rows.len() ==> row_pair_matches(
                    (#[trigger] rows[i])@,
                    pixels@.subrange(i * (2 * dim.w), (i + 1) * (2 * dim.w)),
                    pattern,
                    dim.w as int,
                    black_level@,
                    white_level@,
                    wb_coeff@,
                ),
            tiles_in_order(
                rgb@,
                pixels@,
                pattern,
                dim.w as int,
                black_level@,
                white_level@,
                wb_coeff@,
            ),
        decreases half_h - ty,
    {
        let row = &rows[ty];
        proof {
            assert((ty + 1) * (2 * dim.w) <= (2 * dim.w) * half_h) by (nonlinear_arith)
                requires
                    ty + 1 <= half_h,
                    0 <= dim.w,
            ;
            assert((ty + 1) * half_w == ty * half_w + half_w) by (nonlinear_arith);
            assert(row_pair_matches(
                rows[ty as int]@,
                pixels@.subrange(ty * (2 * dim.w), (ty + 1) * (2 * dim.w)),
                pattern,
                dim.w as int,
                black_level@,
                white_level@,
                wb_coeff@,
            ));
            assert forall|x: int, c: int| 0 <= x < half_w && 0 <= c < 3 implies row[x][c]@
                == #[trigger] tile_component(
                pixels@,
                pattern,
                dim.w as int,
                black_level@,
                white_level@,
                wb_coeff@,
                x,
                ty as int,
                c,
            ) by {
                lemma_row_pair_cut(
                    pixels@,
                    pattern,
                    dim.w as int,
                    black_level@,
                    white_level@,
                    wb_coeff@,
                    x,
                    ty as int,
                    c,
                );
            }
        }
        let mut tx: usize = 0;
        while tx < half_w
            invariant
                half_w == dim.w / 2,
                tx <= half_w,
                row.len() == half_w,
                rgb.len() == ty * half_w + tx,
                forall|x: int, c: int|
                    0 <= x < half_w && 0 <= c < 3 ==> row[x][c]@ == #[trigger] tile_component(
                        pixels@,
                        pattern,
                        dim.w as int,
                        black_level@,
                        white_level@,
                        wb_coeff@,
                        x,
                        ty as int,
                        c,
                    ),
                tiles_in_order(
                    rgb@,
                    pixels@,
                    pattern,
                    dim.w as int,
                    black_level@,
                    white_level@,
                    wb_coeff@,
                ),
            decreases half_w - tx,
        {
            proof {
                vstd::arithmetic::div_mod::lemma_fundamental_div_mod_converse(
                    ty * half_w + tx,
                    half_w as int,
                    ty as int,
                    tx as int,
                );
                assert(half_w * ty == ty * half_w) by (nonlinear_arith);
            }
            rgb.push(row[tx]);
            tx = tx + 1;
        }
        ty = ty + 1;
    }
    proof {
        assert forall|tx: int, ty: int, c: int|
            0 <= tx < dim.w / 2 && 0 <= ty < dim.h / 2 && 0 <= c < 3 implies rgb[ty * (dim.w / 2)
            + tx][c]@ == #[trigger] tile_component(
            pixels@,
            pattern,
            dim.w as int,
            black_level@,
            white_level@,
            wb_coeff@,
            tx,
            ty,
            c,
        ) by {
            let k = ty * half_w + tx;
            vstd::arithmetic::div_mod::lemma_fundamental_div_mod_converse(
                k,
                half_w as int,
                ty,
                tx,
            );
            assert(half_w * ty == ty * half_w) by (nonlinear_arith);
            assert(0 <= k < half_h * half_w) by (nonlinear_arith)
                requires
                    k == ty * half_w + tx,
                    0 <= tx < half_w,
                    0 <= ty < half_h,
            ;
            assert(rgb@[k][c]@ == tile_component(
                pixels@,
                pattern,
                dim.w as int,
                black_level@,
                white_level@,
                wb_coeff@,
                k % (dim.w as int / 2),
                k / (dim.w as int / 2),
                c,
            ));
        }
        assert(half_h * half_w == half_w * half_h) by (nonlinear_arith);
    }
    (rgb, half_w, half_h)
}

/// Every component of a tile's colour lies in the unit interval, and
/// clipping it once more changes nothing.
pub proof fn lemma_tile_component_clipped(
    pixels: Seq<u16>,
    pattern: BayerPattern,
    w: int,
    black: Seq<u16>,
    white: Seq<u16>,
    wb: Seq<Gain>,
    tx: int,
    ty: int,
    c: int,
)
    ensures
        tile_component(pixels, pattern, w, black, white, wb, tx, ty, c).in_unit(),
        clip01_spec(tile_component(pixels, pattern, w, black, white, wb, tx, ty, c))
            == tile_component(pixels, pattern, w, black, white, wb, tx, ty, c),
{
}

/// Where the four sites of a tile hold the same raw value `v`, the black
/// levels are zero, the white levels are all `level` and the gains are
/// one, every component of the tile's colour is `v / level`, whatever the
/// pattern. The value must not lie above the white level, where clipping
/// gives one instead.
pub proof fn lemma_uniform_tile(
    pixels: Seq<u16>,
    pattern: BayerPattern,
    w: int,
    black: Seq<u16>,
    white: Seq<u16>,
    wb: Seq<Gain>,
    tx: int,
    ty: int,
    c: int,
    v: u16,
    level: u16,
)
    requires
        0 <= c < 3,
        0 < level,
        v <= level,
        black.len() == 4,
        white.len() == 4,
        wb.len() == 4,
        forall|site: int| 0 <= site < 4 ==> #[trigger] tile_sample(pixels, w, tx, ty, site) == v,
        forall|slot: int|
            0 <= slot < 4 ==> {
                &&& #[trigger] black[slot] == 0
                &&& white[slot] == level
                &&& wb[slot] == (Gain { num: 1, den: 1 })
            },
    ensures
        tile_component(pixels, pattern, w, black, white, wb, tx, ty, c).same_value(
            Frac { num: v as int, den: level as int },
        ),
{
    let whole = Frac { num: v as int, den: level as int };
    assert forall|site: int| 0 <= site < 4 implies site_value(
        pixels,
        pattern,
        w,
        black,
        white,
        wb,
        tx,
        ty,
        site,
    ) == whole by {
        let slot = pattern.slot_of(site, second_green_in_use(wb));
        assert(tile_sample(pixels, w, tx, ty, site) == v);
        assert(black[slot] == 0);
        assert((v - 0) * 1 == v as int);
        assert((level - 0) * 1 == level as int);
    }
    let (n, d) = (v as int, level as int);
    if c == 1 {
        let m = mean_spec(whole, whole);
        assert(m.num == n * d + n * d);
        assert(m.den == 2 * d * d);
        assert(m.den > 0) by (nonlinear_arith)
            requires
                m.den == 2 * d * d,
                d > 0,
        ;
        if m.num <= 0 {
            assert(n == 0) by (nonlinear_arith)
                requires
                    n * d + n * d <= 0,
                    d > 0,
                    n >= 0,
            ;
            assert(0 * d == n * 1);
        } else if m.num >= m.den {
            assert(n == d) by (nonlinear_arith)
                requires
                    n * d + n * d >= 2 * d * d,
                    d > 0,
                    0 <= n <= d,
            ;
            assert(1 * d == n * 1);
        } else {
            assert((n * d + n * d) * d == n * (2 * d * d)) by (nonlinear_arith);
        }
    } else {
        crate::imgop::lemma_clip01_keeps_unit(whole);
    }
}

} // verus!
