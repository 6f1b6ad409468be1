//! The result of decoding: the mosaic with its calibration.

use vstd::prelude::*;
use crate::bayer::BayerPattern;
use crate::bayer::Gain;
use crate::camera::Camera;

verus! {

/// A decoded sensor mosaic, one sample per sensor site, row by row, with
/// what is needed to turn it into colour.
#[derive(Clone, Debug)]
pub struct RawImage {
    pub width: usize,
    pub height: usize,
    pub pixels: Vec<u16>,
    /// The white-balance multipliers of the channel slots red, green,
    /// blue and second green. The last is marked as not in use where the
    /// sensor has no second green of its own.
    pub white_balance: [Gain; 4],
    /// The black level of each channel slot.
    pub black_level: [u16; 4],
    /// The white level of each channel slot.
    pub white_level: [u16; 4],
    pub pattern: BayerPattern,
}

impl RawImage {
    /// Whether there is one sample for every site.
    pub open spec fn well_formed(self) -> bool {
        self.pixels@.len() == self.width * self.height
    }

    /// The image of the given samples, with the levels and the pattern of
    /// the camera.
    pub fn new(
        camera: &Camera,
        width: usize,
        height: usize,
        wb_coeffs: [Gain; 4],
        image: Vec<u16>,
    ) -> (out: RawImage)
        requires
            image.len() == width * height,
        ensures
            out.well_formed(),
            out.width == width,
            out.height == height,
            out.pixels == image,
            out.white_balance == wb_coeffs,
            out.black_level == camera.blacklevels,
            out.white_level == camera.whitelevels,
            out.pattern == camera.pattern,
    {
        RawImage {
            width,
            height,
            pixels: image,
            white_balance: wb_coeffs,
            black_level: camera.blacklevels,
            white_level: camera.whitelevels,
            pattern: camera.pattern,
        }
    }
}

} // verus!
