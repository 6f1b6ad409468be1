use rawler::bayer::gains_fit;
use rawler::bayer::levels_fit;
use rawler::bayer::BayerPattern;
use rawler::bayer::GAIN_MAX;
use rawler::bayer::Dim2;
use rawler::bayer::Gain;
use rawler::bayer::scale_site;
use rawler::imgop::clip01;
use rawler::imgop::mean;
use rawler::imgop::Ratio;
use rawler::superpixel::debayer_row_pair;
use rawler::superpixel::debayer_superpixel;
use rawler::superpixel::debayer_tile;

const PATTERNS: [BayerPattern; 4] =
    [BayerPattern::RGGB, BayerPattern::BGGR, BayerPattern::GBRG, BayerPattern::GRBG];

fn ones() -> [Gain; 4] {
    [Gain::one(), Gain::one(), Gain::one(), Gain::one()]
}

/// Whether `r` is the number `num / den`.
fn is_value(r: Ratio, num: i128, den: i128) -> bool {
    r.den != 0 && den != 0 && r.num * den == num * r.den
}

fn in_unit(r: Ratio) -> bool {
    (r.den > 0 && 0 <= r.num && r.num <= r.den) || (r.den < 0 && r.den <= r.num && r.num <= 0)
}

#[test]
fn output_has_a_quarter_of_the_pixels_and_lies_in_the_unit_interval() {
    let dim = Dim2 { w: 6, h: 4 };
    let mut pixels: Vec<u16> = Vec::new();
    for i in 0..24u32 {
        pixels.push((i * 2731) as u16);
    }
    let black = [100, 200, 300, 400];
    let white = [4000, 5000, 60000, 3000];
    let wb = [Gain { num: 3, den: 2 }, Gain::one(), Gain { num: 7, den: 3 }, Gain::unused()];
    for pattern in PATTERNS {
        let (rgb, w, h) = debayer_superpixel(&pixels, pattern, dim, &black, &white, &wb);
        assert_eq!(w, 3);
        assert_eq!(h, 2);
        assert_eq!(rgb.len(), 6);
        for colour in rgb.iter() {
            for c in 0..3 {
                assert!(in_unit(colour[c]));
            }
        }
    }
}

#[test]
fn empty_mosaic_gives_empty_image() {
    let pixels: Vec<u16> = Vec::new();
    let levels = [0, 0, 0, 0];
    let white = [10, 10, 10, 10];
    let (rgb, w, h) = debayer_superpixel(
        &pixels,
        BayerPattern::RGGB,
        Dim2 { w: 0, h: 0 },
        &levels,
        &white,
        &ones(),
    );
    assert_eq!((rgb.len(), w, h), (0, 0, 0));
    let (rgb, w, h) = debayer_superpixel(
        &pixels,
        BayerPattern::RGGB,
        Dim2 { w: 0, h: 6 },
        &levels,
        &white,
        &ones(),
    );
    assert_eq!((rgb.len(), w, h), (0, 0, 3));
    let (rgb, w, h) = debayer_superpixel(
        &pixels,
        BayerPattern::RGGB,
        Dim2 { w: 8, h: 0 },
        &levels,
        &white,
        &ones(),
    );
    assert_eq!((rgb.len(), w, h), (0, 4, 0));
}

#[test]
fn clipping_twice_is_clipping_once() {
    let samples = [
        Ratio { num: -5, den: 3 },
        Ratio { num: 0, den: 3 },
        Ratio { num: 1, den: 3 },
        Ratio { num: 3, den: 3 },
        Ratio { num: 7, den: 3 },
        Ratio { num: 1, den: 0 },
        Ratio { num: 0, den: 0 },
        Ratio { num: 2, den: -1 },
        Ratio { num: -1, den: -2 },
        Ratio { num: -2, den: -2 },
        Ratio { num: -3, den: -2 },
        Ratio { num: 0, den: -2 },
    ];
    for r in samples {
        let once = clip01(r);
        assert!(in_unit(once));
        assert_eq!(clip01(once), once);
    }
}

#[test]
fn clip01_values() {
    assert_eq!(clip01(Ratio { num: -5, den: 3 }), Ratio { num: 0, den: 1 });
    assert_eq!(clip01(Ratio { num: 0, den: 3 }), Ratio { num: 0, den: 1 });
    assert_eq!(clip01(Ratio { num: 1, den: 3 }), Ratio { num: 1, den: 3 });
    assert_eq!(clip01(Ratio { num: 3, den: 3 }), Ratio { num: 1, den: 1 });
    assert_eq!(clip01(Ratio { num: 7, den: 3 }), Ratio { num: 1, den: 1 });
    assert_eq!(clip01(Ratio { num: 1, den: 0 }), Ratio { num: 0, den: 1 });
    assert_eq!(clip01(Ratio { num: 0, den: 0 }), Ratio { num: 0, den: 1 });
    // a negative denominator is a denominator like any other
    assert_eq!(clip01(Ratio { num: 5, den: -3 }), Ratio { num: 0, den: 1 });
    assert_eq!(clip01(Ratio { num: 0, den: -3 }), Ratio { num: 0, den: 1 });
    assert_eq!(clip01(Ratio { num: -1, den: -3 }), Ratio { num: -1, den: -3 });
    assert_eq!(clip01(Ratio { num: -3, den: -3 }), Ratio { num: 1, den: 1 });
    assert_eq!(clip01(Ratio { num: -7, den: -3 }), Ratio { num: 1, den: 1 });
}

#[test]
fn mean_values() {
    let m = mean(Ratio { num: 1, den: 2 }, Ratio { num: 1, den: 3 });
    assert_eq!(m, Ratio { num: 5, den: 12 });
    let m = mean(Ratio { num: -1, den: 2 }, Ratio { num: 1, den: 2 });
    assert_eq!(m, Ratio { num: 0, den: 8 });
    let m = mean(Ratio { num: 1, den: 2 }, Ratio { num: 1, den: 0 });
    assert_eq!(m, Ratio { num: 0, den: 0 });
    let m = mean(Ratio { num: 1, den: 0 }, Ratio { num: 1, den: 2 });
    assert_eq!(m, Ratio { num: 0, den: 0 });
    // the mean of 1/2 and 3/4, the first written as -1 / -2
    let m = mean(Ratio { num: -1, den: -2 }, Ratio { num: 3, den: 4 });
    assert!(is_value(m, 5, 8));
}

#[test]
fn scale_site_values() {
    let s = scale_site(600, 100, 1100, Gain { num: 3, den: 2 });
    assert_eq!(s, Ratio { num: 1500, den: 2000 });
    let s = scale_site(50, 100, 1100, Gain::one());
    assert_eq!(s, Ratio { num: -50, den: 1000 });
    let s = scale_site(50, 0, 100, Gain::unused());
    assert_eq!(s, Ratio { num: 0, den: 0 });
    // white below black: the quotient of two negative numbers
    let s = scale_site(500, 700, 600, Gain::one());
    assert_eq!(s, Ratio { num: -200, den: -100 });
    assert_eq!(clip01(s), Ratio { num: 1, den: 1 });
    let s = scale_site(650, 700, 600, Gain::one());
    assert!(is_value(clip01(s), 1, 2));
    let s = scale_site(750, 700, 600, Gain::one());
    assert_eq!(clip01(s), Ratio { num: 0, den: 1 });
}

#[test]
fn uniform_mosaic_gives_grey_for_every_pattern() {
    let level: u16 = 4095;
    for v in [0u16, 1, 1000, 4094, 4095] {
        let pixels: Vec<u16> = vec![v; 8 * 4];
        for pattern in PATTERNS {
            let (rgb, _, _) = debayer_superpixel(
                &pixels,
                pattern,
                Dim2 { w: 8, h: 4 },
                &[0, 0, 0, 0],
                &[level, level, level, level],
                &ones(),
            );
            assert_eq!(rgb.len(), 8);
            for colour in rgb.iter() {
                for c in 0..3 {
                    assert!(is_value(colour[c], v as i128, level as i128));
                }
            }
        }
    }
}

#[test]
fn rggb_tile_takes_the_diagonal_and_averages_green() {
    for level in [100u16, 255, 1000, 4095, 65535] {
        let out = debayer_tile(
            [100, 50, 60, 80],
            BayerPattern::RGGB,
            &[0, 0, 0, 0],
            &[level, level, level, level],
            &ones(),
        );
        assert!(is_value(out[0], 100, level as i128));
        assert!(is_value(out[1], 55, level as i128));
        assert!(is_value(out[2], 80, level as i128));
    }
}

#[test]
fn rggb_image_of_one_tile() {
    let pixels: Vec<u16> = vec![100, 50, 60, 80];
    let (rgb, w, h) = debayer_superpixel(
        &pixels,
        BayerPattern::RGGB,
        Dim2 { w: 2, h: 2 },
        &[0, 0, 0, 0],
        &[1000, 1000, 1000, 1000],
        &ones(),
    );
    assert_eq!((w, h), (1, 1));
    assert_eq!(rgb.len(), 1);
    assert_eq!(rgb[0][0], Ratio { num: 100, den: 1000 });
    assert_eq!(rgb[0][1], Ratio { num: 110_000, den: 2_000_000 });
    assert_eq!(rgb[0][2], Ratio { num: 80, den: 1000 });
}

#[test]
fn every_pattern_picks_its_sites() {
    let tile = [100, 50, 60, 80];
    let black = [0, 0, 0, 0];
    let white = [1000, 1000, 1000, 1000];
    let expect = [
        (BayerPattern::RGGB, 100, 55, 80),
        (BayerPattern::BGGR, 80, 55, 100),
        (BayerPattern::GBRG, 60, 90, 50),
        (BayerPattern::GRBG, 50, 90, 60),
    ];
    for (pattern, r, g, b) in expect {
        let out = debayer_tile(tile, pattern, &black, &white, &ones());
        assert!(is_value(out[0], r, 1000));
        assert!(is_value(out[1], g, 1000));
        assert!(is_value(out[2], b, 1000));
    }
}

#[test]
fn rgb_sites_table() {
    assert_eq!(BayerPattern::RGGB.rgb_sites(), (0, 1, 2, 3));
    assert_eq!(BayerPattern::BGGR.rgb_sites(), (3, 1, 2, 0));
    assert_eq!(BayerPattern::GBRG.rgb_sites(), (2, 0, 3, 1));
    assert_eq!(BayerPattern::GRBG.rgb_sites(), (1, 0, 3, 2));
}

#[test]
fn calibration_is_taken_per_channel_slot() {
    let tile = [600, 700, 800, 900];
    let black = [100, 200, 300, 400];
    let white = [1100, 1200, 1300, 1400];
    let wb = [
        Gain { num: 1, den: 2 },
        Gain { num: 1, den: 4 },
        Gain { num: 3, den: 4 },
        Gain { num: 1, den: 1 },
    ];
    // RGGB: red top left, greens top right and bottom left, blue bottom right
    let out = debayer_tile(tile, BayerPattern::RGGB, &black, &white, &wb);
    // red: (600 - 100) / 1000 * 1/2
    assert!(is_value(out[0], 1, 4));
    // green: mean of (700 - 200) / 1000 * 1/4 = 1/8 and (800 - 400) / 1000 * 1 = 2/5
    assert!(is_value(out[1], 21, 80));
    // blue: (900 - 300) / 1000 * 3/4
    assert!(is_value(out[2], 9, 20));
    // BGGR: blue top left, red bottom right
    let out = debayer_tile(tile, BayerPattern::BGGR, &black, &white, &wb);
    assert!(is_value(out[0], 2, 5));
    assert!(is_value(out[1], 21, 80));
    assert!(is_value(out[2], 9, 40));
    // GBRG: greens top left and bottom right, blue top right, red bottom left
    let out = debayer_tile(tile, BayerPattern::GBRG, &black, &white, &wb);
    assert!(is_value(out[0], 7, 20));
    // mean of (600 - 200) / 1000 * 1/4 = 1/10 and (900 - 400) / 1000 * 1 = 1/2
    assert!(is_value(out[1], 3, 10));
    assert!(is_value(out[2], 3, 10));
    // GRBG: red top right, blue bottom left
    let out = debayer_tile(tile, BayerPattern::GRBG, &black, &white, &wb);
    assert!(is_value(out[0], 3, 10));
    assert!(is_value(out[1], 3, 10));
    assert!(is_value(out[2], 3, 8));
}

#[test]
fn blue_takes_the_gain_of_the_blue_slot() {
    let pixels: Vec<u16> = vec![0, 0, 0, 64];
    let wb = [Gain::one(), Gain::one(), Gain { num: 1, den: 2 }, Gain::one()];
    let (rgb, w, h) = debayer_superpixel(
        &pixels,
        BayerPattern::RGGB,
        Dim2 { w: 2, h: 2 },
        &[0, 0, 0, 0],
        &[128, 128, 128, 128],
        &wb,
    );
    assert_eq!((w, h), (1, 1));
    assert_eq!(rgb.len(), 1);
    assert_eq!(rgb[0][0], Ratio { num: 0, den: 1 });
    assert_eq!(rgb[0][1], Ratio { num: 0, den: 1 });
    assert!(is_value(rgb[0][2], 1, 4));
}

#[test]
fn second_green_not_in_use_takes_the_slot_of_the_first() {
    // red, green and blue gains with no second green; the levels of the last slot
    // are not read
    let wb = [Gain { num: 2, den: 1 }, Gain { num: 1, den: 2 }, Gain { num: 3, den: 2 }, Gain::unused()];
    let black = [0, 100, 0, 900];
    let white = [1000, 1100, 1000, 100];
    let out = debayer_tile([100, 300, 500, 200], BayerPattern::RGGB, &black, &white, &wb);
    assert!(is_value(out[0], 1, 5));
    // mean of (300 - 100) / 1000 * 1/2 = 1/10 and (500 - 100) / 1000 * 1/2 = 1/5
    assert!(is_value(out[1], 3, 20));
    assert!(is_value(out[2], 3, 10));
    let out = debayer_tile([300, 200, 100, 500], BayerPattern::GBRG, &black, &white, &wb);
    assert!(is_value(out[0], 1, 5));
    assert!(is_value(out[1], 3, 20));
    assert!(is_value(out[2], 3, 10));
}

#[test]
fn values_outside_the_levels_are_clipped() {
    let out = debayer_tile(
        [50, 5000, 5000, 2000],
        BayerPattern::RGGB,
        &[100, 100, 100, 100],
        &[1100, 1100, 1100, 1100],
        &ones(),
    );
    assert_eq!(out[0], Ratio { num: 0, den: 1 });
    assert_eq!(out[1], Ratio { num: 1, den: 1 });
    assert_eq!(out[2], Ratio { num: 1, den: 1 });
}

#[test]
fn unused_gain_gives_zero() {
    let black = [0, 0, 0, 0];
    let white = [1000, 1000, 1000, 1000];
    let tile = [500, 500, 500, 500];
    let wb = [Gain::unused(), Gain::one(), Gain::one(), Gain::one()];
    let out = debayer_tile(tile, BayerPattern::RGGB, &black, &white, &wb);
    assert_eq!(out[0], Ratio { num: 0, den: 1 });
    assert!(is_value(out[1], 1, 2));
    assert!(is_value(out[2], 1, 2));
    let wb = [Gain::one(), Gain::unused(), Gain::one(), Gain::one()];
    let out = debayer_tile(tile, BayerPattern::GRBG, &black, &white, &wb);
    assert!(is_value(out[0], 1, 2));
    assert_eq!(out[1], Ratio { num: 0, den: 1 });
    assert!(is_value(out[2], 1, 2));
    let wb = [Gain::one(), Gain::one(), Gain::unused(), Gain::unused()];
    let out = debayer_tile(tile, BayerPattern::BGGR, &black, &white, &wb);
    assert!(is_value(out[0], 1, 2));
    assert!(is_value(out[1], 1, 2));
    assert_eq!(out[2], Ratio { num: 0, den: 1 });
}

#[test]
fn levels_that_fit() {
    let used = [Gain::one(), Gain::one(), Gain::one(), Gain::one()];
    let no_second = [Gain::one(), Gain::one(), Gain::one(), Gain::unused()];
    assert!(levels_fit(&[0, 1, 2, 3], &[1, 2, 3, 4], &used));
    assert!(!levels_fit(&[0, 1, 2, 3], &[1, 2, 3, 3], &used));
    assert!(levels_fit(&[0, 1, 2, 3], &[1, 2, 3, 3], &no_second));
    assert!(levels_fit(&[0, 1, 2, 9], &[1, 2, 3, 0], &no_second));
    for slot in 0..3 {
        let mut white = [10, 10, 10, 10];
        white[slot] = 5;
        assert!(!levels_fit(&[5, 5, 5, 5], &white, &used));
        assert!(!levels_fit(&[5, 5, 5, 5], &white, &no_second));
    }
}

#[test]
fn largest_gains_fit() {
    let big = Gain { num: 0xff_ffff_ffff, den: 0xff_ffff_ffff };
    let out = debayer_tile(
        [65535, 65535, 65535, 65535],
        BayerPattern::RGGB,
        &[0, 0, 0, 0],
        &[65535, 65535, 65535, 65535],
        &[big, big, big, big],
    );
    for c in 0..3 {
        assert_eq!(out[c], Ratio { num: 1, den: 1 });
    }
    let out = debayer_tile(
        [30000, 30000, 30000, 30000],
        BayerPattern::GRBG,
        &[0, 0, 0, 0],
        &[60000, 60000, 60000, 60000],
        &[big, big, big, big],
    );
    for c in 0..3 {
        assert!(is_value(out[c], 1, 2));
    }
}

#[test]
fn row_pair_goes_from_left_to_right() {
    // two mosaic rows of width 6: tiles (1,2,7,8), (3,4,9,10), (5,6,11,12)
    let s: Vec<u16> = vec![1, 2, 3, 4, 5, 6, 7, 8, 9, 10, 11, 12];
    let white = [100, 100, 100, 100];
    let row = debayer_row_pair(&s, 6, BayerPattern::RGGB, &[0, 0, 0, 0], &white, &ones());
    assert_eq!(row.len(), 3);
    let expect = [(1, 2 + 7, 8), (3, 4 + 9, 10), (5, 6 + 11, 12)];
    for (tx, (r, g2, b)) in expect.iter().enumerate() {
        assert!(is_value(row[tx][0], *r, 100));
        assert!(is_value(row[tx][1], *g2, 200));
        assert!(is_value(row[tx][2], *b, 100));
    }
}

#[test]
fn tiles_come_out_row_by_row() {
    let (w, h) = (6usize, 8usize);
    let mut pixels: Vec<u16> = Vec::new();
    for i in 0..(w * h) {
        pixels.push(i as u16);
    }
    let white = [1000, 1000, 1000, 1000];
    let (rgb, ow, oh) = debayer_superpixel(
        &pixels,
        BayerPattern::RGGB,
        Dim2 { w, h },
        &[0, 0, 0, 0],
        &white,
        &ones(),
    );
    assert_eq!((ow, oh), (3, 4));
    assert_eq!(rgb.len(), 12);
    for ty in 0..oh {
        for tx in 0..ow {
            let top_left = (2 * ty * w + 2 * tx) as i128;
            let top_right = top_left + 1;
            let bottom_left = top_left + w as i128;
            let bottom_right = bottom_left + 1;
            let colour = rgb[ty * ow + tx];
            assert!(is_value(colour[0], top_left, 1000));
            assert!(is_value(colour[1], top_right + bottom_left, 2000));
            assert!(is_value(colour[2], bottom_right, 1000));
        }
    }
}

#[test]
fn whole_image_agrees_with_tile_by_tile() {
    let (w, h) = (10usize, 6usize);
    let mut pixels: Vec<u16> = Vec::new();
    for i in 0..(w * h) {
        pixels.push(((i * 7919) % 4096) as u16);
    }
    let black = [64, 60, 66, 62];
    let white = [4000, 4010, 3990, 4095];
    let wb = [
        Gain { num: 547_624_000, den: 65_536_000 },
        Gain::one(),
        Gain { num: 896_172_000, den: 65_536_000 },
        Gain::one(),
    ];
    for pattern in PATTERNS {
        let (rgb, ow, oh) = debayer_superpixel(&pixels, pattern, Dim2 { w, h }, &black, &white, &wb);
        assert_eq!((ow, oh), (5, 3));
        for ty in 0..oh {
            for tx in 0..ow {
                let at = 2 * ty * w + 2 * tx;
                let tile = [pixels[at], pixels[at + 1], pixels[at + w], pixels[at + w + 1]];
                let one = debayer_tile(tile, pattern, &black, &white, &wb);
                assert_eq!(rgb[ty * ow + tx], one);
            }
        }
    }
}

#[test]
fn gains_that_fit() {
    assert!(Gain::one().fits());
    assert!(Gain::unused().fits());
    assert!(Gain { num: GAIN_MAX, den: GAIN_MAX }.fits());
    assert!(!Gain { num: GAIN_MAX + 1, den: 1 }.fits());
    assert!(!Gain { num: 1, den: GAIN_MAX + 1 }.fits());
    assert!(gains_fit(&ones()));
    for i in 0..4 {
        let mut wb = ones();
        wb[i] = Gain { num: u64::MAX, den: 1 };
        assert!(!gains_fit(&wb));
    }
}
