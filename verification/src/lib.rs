//! Decoding of packed camera sensor data and reconstruction of colour from
//! the sensor mosaic, in exact integer arithmetic.

pub mod bayer;
pub mod camera;
pub mod erf;
pub mod error;
pub mod imgop;
pub mod packed;
pub mod rawimage;
pub mod superpixel;
pub mod tiff;
