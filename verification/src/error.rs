//! The errors that building or reading an image can report.

use vstd::prelude::*;

verus! {

/// Why an image could not be built or a pixel could not be read.
#[derive(Debug)]
pub enum ImageError {
    /// The raw byte buffer cannot hold an image of the declared layout and
    /// dimensions: its length is not width x height x bytes per pixel, or a
    /// dimension is zero.
    InvalidBufferLength,
    /// A coordinate lies outside the image.
    IndexOutOfRange,
    /// The decoder could not read the image. Its own error is handed on
    /// unchanged.
    DecodeFailure(png::DecodingError),
    /// The decoder read an image whose pixels are not red-green-blue, with or
    /// without alpha.
    UnsupportedColorType,
}

} // verus!
