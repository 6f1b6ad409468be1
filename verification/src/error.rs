//! The ways in which decoding a raw file fails.

use vstd::prelude::*;

verus! {

/// Why a raw file was not decoded.
#[derive(Clone, Copy, Debug, PartialEq, Eq, Structural)]
pub enum DecodeError {
    /// The identifying tags match no known camera.
    UnsupportedCamera,
    /// A directory or tag that the format needs is absent or empty.
    MalformedContainer,
    /// A calibration tag does not have the number of elements that the
    /// format fixes.
    Calibration,
    /// The pixel stream does not lie inside the file.
    BufferBounds,
}

impl DecodeError {
    /// The error in words.
    pub open spec fn message_spec(self) -> Seq<char> {
        match self {
            DecodeError::UnsupportedCamera => "camera is not supported"@,
            DecodeError::MalformedContainer => "ERF: a directory or tag is missing"@,
            DecodeError::Calibration => "ERF: Levels count is off"@,
            DecodeError::BufferBounds => "ERF: the pixel data does not lie inside the file"@,
        }
    }

    /// The error in words.
    pub fn message(self) -> (out: &'static str)
        ensures
            out@ == self.message_spec(),
    {
        match self {
            DecodeError::UnsupportedCamera => "camera is not supported",
            DecodeError::MalformedContainer => "ERF: a directory or tag is missing",
            DecodeError::Calibration => "ERF: Levels count is off",
            DecodeError::BufferBounds => "ERF: the pixel data does not lie inside the file",
        }
    }
}

} // verus!
