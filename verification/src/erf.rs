//! The decoder of Epson's raw format: 12-bit samples, big-endian with
//! control bytes, and white balance from a table of 256 numbers.

use vstd::prelude::*;
use vstd::slice::slice_subrange;
use crate::bayer::gains_in_range;
use crate::bayer::Gain;
use crate::camera::Camera;
use crate::camera::RawLoader;
use crate::error::DecodeError;
use crate::packed::decode_12be_wcontrol;
use crate::packed::stream_len;
use crate::packed::unpacked_at;
use crate::rawimage::RawImage;
use crate::tiff::be_u16;
use crate::tiff::TagValue;
use crate::tiff::TiffIFD;
use crate::tiff::TAG_CFA_PATTERN;
use crate::tiff::TAG_EPSON_WB;
use crate::tiff::TAG_IMAGE_LENGTH;
use crate::tiff::TAG_IMAGE_WIDTH;
use crate::tiff::TAG_STRIP_OFFSETS;

verus! {

/// The number of elements of the white-balance table.
pub const WB_TABLE_COUNT: usize = 256;

/// The offset of the red reading in the bytes of the table.
pub const WB_RED_OFFSET: usize = 48;

/// The offset of the blue reading in the bytes of the table.
pub const WB_BLUE_OFFSET: usize = 50;

/// The scale of the red reading, 508 times 1.078, in thousandths.
pub const WB_RED_SCALE: u64 = 547_624;

/// The scale of the blue reading, 382 times 1.173, in thousandths.
pub const WB_BLUE_SCALE: u64 = 448_086;

/// What a scaled reading is divided by: 65536, in thousandths.
pub const WB_DIVISOR: u64 = 65_536_000;

/// The white balance that a table of readings gives: the red and the blue
/// reading, each times its scale and divided by 65536; one for green; and
/// no second green.
pub open spec fn wb_of_table(data: Seq<u8>) -> Seq<Gain> {
    seq![
        Gain {
            num: ((data[48] * 256 + data[49]) * WB_RED_SCALE) as u64,
            den: WB_DIVISOR,
        },
        Gain { num: 1, den: 1 },
        Gain {
            num: ((data[50] * 256 + data[51]) * WB_BLUE_SCALE) as u64,
            den: WB_DIVISOR,
        },
        Gain { num: 0, den: 0 },
    ]
}

/// The first element of the value of `tag` under `dir`, where the tag is
/// there and its value is not empty.
pub open spec fn first_value(dir: TiffIFD, tag: u16) -> Option<int> {
    match dir.find_entry_spec(tag) {
        Some(value) => if value.count_spec() > 0 {
            Some(value.value_spec(0))
        } else {
            None
        },
        None => None,
    }
}

/// The first element of the value of `tag` under `dir`.
fn first_usize(dir: &TiffIFD, tag: u16) -> (out: Option<usize>)
    ensures
        match first_value(*dir, tag) {
            Some(v) => out == Some(v as usize) && v == v as usize,
            None => out is None,
        },
{
    match dir.find_entry(tag) {
        Some(value) => if value.count() > 0 {
            Some(value.get_usize(0))
        } else {
            None
        },
        None => None,
    }
}

/// A decoder for one file.
#[derive(Debug, Clone)]
pub struct ErfDecoder<'a> {
    pub buffer: &'a [u8],
    pub rawloader: &'a RawLoader,
    pub tiff: TiffIFD,
}

impl<'a> ErfDecoder<'a> {
    /// Width, height and the offset of the pixel stream, read from the
    /// first directory that has the mosaic pattern's tag. There is none
    /// where that directory or one of the three tags is missing or empty.
    pub open spec fn geometry_spec(self) -> Option<(int, int, int)> {
        match self.tiff.find_first_ifd_spec(TAG_CFA_PATTERN) {
            Some(raw) => match (
                first_value(raw, TAG_IMAGE_WIDTH),
                first_value(raw, TAG_IMAGE_LENGTH),
                first_value(raw, TAG_STRIP_OFFSETS),
            ) {
                (Some(width), Some(height), Some(offset)) => Some((width, height, offset)),
                _ => None,
            },
            None => None,
        }
    }

    /// The white balance of the file, or why there is none: the table is
    /// missing, or it does not have 256 elements.
    pub open spec fn wb_spec(self) -> Result<Seq<Gain>, DecodeError> {
        match self.tiff.find_entry_spec(TAG_EPSON_WB) {
            Some(levels) => if levels.count_spec() != WB_TABLE_COUNT {
                Err(DecodeError::Calibration)
            } else {
                Ok(wb_of_table(levels.data@))
            },
            None => Err(DecodeError::MalformedContainer),
        }
    }

    /// Whether `image` is what the file decodes to, given its camera, its
    /// geometry and its white balance.
    pub open spec fn is_decoded(
        self,
        image: RawImage,
        camera: Camera,
        width: int,
        height: int,
        offset: int,
        wb: Seq<Gain>,
        dummy: bool,
    ) -> bool {
        &&& image.width == width
        &&& image.height == height
        &&& image.pixels@.len() == width * height
        &&& forall|row: int, col: int|
            0 <= row < height && 0 <= col < width ==> image.pixels@[row * width + col] as int
                == #[trigger] unpacked_at(
                self.buffer@.subrange(offset, self.buffer@.len() as int),
                width,
                row,
                col,
                dummy,
            )
        &&& image.white_balance@ == wb
        &&& gains_in_range(image.white_balance@)
        &&& image.black_level == camera.blacklevels
        &&& image.white_level == camera.whitelevels
        &&& image.pattern == camera.pattern
    }

    /// A decoder for the file in `buf`, whose tags are `tiff`.
    pub fn new(buf: &'a [u8], tiff: TiffIFD, rawloader: &'a RawLoader) -> (out: ErfDecoder<'a>)
        ensures
            out.buffer == buf,
            out.tiff == tiff,
            out.rawloader == rawloader,
    {
        ErfDecoder { buffer: buf, tiff: tiff, rawloader: rawloader }
    }

    /// Reads the white balance from the file's table of readings.
    pub fn get_wb(&self) -> (out: Result<[Gain; 4], DecodeError>)
        ensures
            match self.wb_spec() {
                Ok(wb) => out matches Ok(got) && got@ == wb,
                Err(e) => out == Err::<[Gain; 4], DecodeError>(e),
            },
            out matches Ok(got) ==> gains_in_range(got@),
    {
        let levels = match self.tiff.find_entry(TAG_EPSON_WB) {
            Some(value) => value,
            None => {
                return Err(DecodeError::MalformedContainer);
            },
        };
        if levels.count() != WB_TABLE_COUNT {
            Err(DecodeError::Calibration)
        } else {
            let data = levels.get_data();
            assert(data@.len() >= 256) by {
                assert(levels.typ.width_spec() >= 1);
                assert(levels.count_spec() == 256);
                assert(data@.len() >= 256) by (nonlinear_arith)
                    requires
                        (data@.len() as int) / levels.typ.width_spec() == 256,
                        levels.typ.width_spec() >= 1,
                ;
            }
            let r: u64 = be_u16(data.as_slice(), WB_RED_OFFSET) as u64;
            let b: u64 = be_u16(data.as_slice(), WB_BLUE_OFFSET) as u64;
            let wb = [
                Gain { num: r * WB_RED_SCALE, den: WB_DIVISOR },
                Gain { num: 1, den: 1 },
                Gain { num: b * WB_BLUE_SCALE, den: WB_DIVISOR },
                Gain { num: 0, den: 0 },
            ];
            assert(wb@ =~= wb_of_table(levels.data@));
            Ok(wb)
        }
    }

    /// Decodes the file. In probe mode (`dummy`) the samples come out as
    /// zeros; everything else is as without it.
    pub fn raw_image(&self, dummy: bool) -> (out: Result<RawImage, DecodeError>)
        ensures
            match self.rawloader.check_supported_spec(self.tiff) {
                None => out == Err::<RawImage, DecodeError>(DecodeError::UnsupportedCamera),
                Some(camera) => match self.geometry_spec() {
                    None => out == Err::<RawImage, DecodeError>(DecodeError::MalformedContainer),
                    Some((width, height, offset)) => if offset > self.buffer@.len()
                        || self.buffer@.len() - offset < stream_len(width, height) {
                        out == Err::<RawImage, DecodeError>(DecodeError::BufferBounds)
                    } else {
                        match self.wb_spec() {
                            Err(e) => out == Err::<RawImage, DecodeError>(e),
                            Ok(wb) => out matches Ok(image) && self.is_decoded(
                                image,
                                camera,
                                width,
                                height,
                                offset,
                                wb,
                                dummy,
                            ),
                        }
                    },
                },
            },
    {
        let camera = match self.rawloader.check_supported(&self.tiff) {
            Ok(camera) => camera,
            Err(e) => {
                return Err(e);
            },
        };
        let raw = match self.tiff.find_first_ifd(TAG_CFA_PATTERN) {
            Some(dir) => dir,
            None => {
                return Err(DecodeError::MalformedContainer);
            },
        };
        let width = first_usize(raw, TAG_IMAGE_WIDTH);
        let height = first_usize(raw, TAG_IMAGE_LENGTH);
        let offset = first_usize(raw, TAG_STRIP_OFFSETS);
        let (width, height, offset) = match (width, height, offset) {
            (Some(w), Some(h), Some(o)) => (w, h, o),
            _ => {
                return Err(DecodeError::MalformedContainer);
            },
        };
        if offset > self.buffer.len() {
            return Err(DecodeError::BufferBounds);
        }
        let src = slice_subrange(self.buffer, offset, self.buffer.len());
        let image = match decode_12be_wcontrol(src, width, height, dummy) {
            Ok(image) => image,
            Err(e) => {
                return Err(e);
            },
        };
        let wb = match self.get_wb() {
            Ok(wb) => wb,
            Err(e) => {
                return Err(e);
            },
        };
        Ok(RawImage::new(camera, width, height, wb, image))
    }
}

} // verus!
