//! The cameras that are supported, and the lookup of a file's camera by
//! its identifying tags.

use vstd::prelude::*;
use crate::bayer::BayerPattern;
use crate::error::DecodeError;
use crate::tiff::TiffIFD;
use crate::tiff::TAG_MAKE;
use crate::tiff::TAG_MODEL;

verus! {

/// What is known of one camera model.
#[derive(Clone, Debug)]
pub struct Camera {
    /// The bytes of the maker's name, as the files of this camera hold
    /// them.
    pub make: Vec<u8>,
    /// The bytes of the model's name, as the files of this camera hold
    /// them.
    pub model: Vec<u8>,
    /// The number of bits of a sample.
    pub bps: u8,
    /// The sensor's default crop: top, right, bottom and left margin.
    pub crops: [usize; 4],
    /// The black level of each channel slot.
    pub blacklevels: [u16; 4],
    /// The white level of each channel slot.
    pub whitelevels: [u16; 4],
    /// The layout of the sensor's mosaic.
    pub pattern: BayerPattern,
}

impl Camera {
    /// Whether this camera has the given names.
    pub open spec fn has_names(self, make: Seq<u8>, model: Seq<u8>) -> bool {
        self.make@ == make && self.model@ == model
    }
}

/// Whether two byte strings are equal.
pub fn same_bytes(a: &Vec<u8>, b: &Vec<u8>) -> (out: bool)
    ensures
        out == (a@ == b@),
{
    if a.len() != b.len() {
        return false;
    }
    let mut i: usize = 0;
    while i < a.len()
        invariant
            a.len() == b.len(),
            i <= a.len(),
            forall|j: int| 0 <= j < i ==> a@[j] == b@[j],
        decreases a.len() - i,
    {
        if a[i] != b[i] {
            return false;
        }
        i = i + 1;
    }
    assert(a@ =~= b@);
    true
}

/// The table of supported cameras.
#[derive(Clone, Debug)]
pub struct RawLoader {
    pub cameras: Vec<Camera>,
}

impl RawLoader {
    /// The first camera with the given names among those from `i` on.
    pub open spec fn lookup_from(self, make: Seq<u8>, model: Seq<u8>, i: int) -> Option<Camera>
        decreases self.cameras@.len() - i,
    {
        if 0 <= i < self.cameras@.len() {
            if self.cameras@[i].has_names(make, model) {
                Some(self.cameras@[i])
            } else {
                self.lookup_from(make, model, i + 1)
            }
        } else {
            None
        }
    }

    /// The camera of a file: the first of the table whose names are the
    /// bytes of the file's maker and model tags. A file without one of
    /// the two tags has none.
    pub open spec fn check_supported_spec(self, tiff: TiffIFD) -> Option<Camera> {
        match (tiff.find_entry_spec(TAG_MAKE), tiff.find_entry_spec(TAG_MODEL)) {
            (Some(make), Some(model)) => self.lookup_from(make.data@, model.data@, 0),
            _ => None,
        }
    }

    /// A table of the given cameras.
    pub fn new(cameras: Vec<Camera>) -> (out: RawLoader)
        ensures
            out.cameras == cameras,
    {
        RawLoader { cameras }
    }

    /// Looks up the camera of a file.
    pub fn check_supported(&self, tiff: &TiffIFD) -> (out: Result<&Camera, DecodeError>)
        ensures
            match self.check_supported_spec(*tiff) {
                Some(camera) => out == Ok::<&Camera, DecodeError>(&camera),
                None => out == Err::<&Camera, DecodeError>(DecodeError::UnsupportedCamera),
            },
    {
        let make = match tiff.find_entry(TAG_MAKE) {
            Some(value) => value,
            None => {
                return Err(DecodeError::UnsupportedCamera);
            },
        };
        let model = match tiff.find_entry(TAG_MODEL) {
            Some(value) => value,
            None => {
                return Err(DecodeError::UnsupportedCamera);
            },
        };
        let mut i: usize = 0;
        while i < self.cameras.len()
            invariant
                i <= self.cameras.len(),
                self.check_supported_spec(*tiff) == self.lookup_from(
                    make.data@,
                    model.data@,
                    i as int,
                ),
            decreases self.cameras.len() - i,
        {
            let camera = &self.cameras[i];
            if same_bytes(&camera.make, &make.data) && same_bytes(&camera.model, &model.data) {
                return Ok(camera);
            }
            i = i + 1;
        }
        Err(DecodeError::UnsupportedCamera)
    }
}

} // verus!
