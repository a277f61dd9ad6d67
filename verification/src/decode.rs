//! Decoded image data, and the PNG decoder that supplies it.
//!
//! The decoder itself is the `png` crate. Nothing here parses the file format:
//! the module only names what the decoder gives for some bytes, and carries its
//! result into plain values that the image container can check and pack.

use vstd::prelude::*;

use crate::common::ColorType;

verus! {

/// The error type of the `png` decoder. It is carried through unchanged and
/// never looked into.
#[verifier::external_type_specification]
#[verifier::external_body]
pub struct ExDecodingError(png::DecodingError);

/// The layouts of the samples of a pixel that a decoder can report.
#[derive(Clone, Copy, Debug)]
pub enum SampleLayout {
    /// One sample: the intensity.
    Grayscale,
    /// Three samples: red, green, blue.
    Rgb,
    /// One sample: an index into a palette.
    Indexed,
    /// Two samples: the intensity and alpha.
    GrayscaleAlpha,
    /// Four samples: red, green, blue, alpha.
    Rgba,
}

impl SampleLayout {
    /// The declared layout of raw bytes in this sample layout, where an image
    /// can be built from it: only red-green-blue, with or without alpha.
    pub open spec fn spec_color_type(self) -> Option<ColorType> {
        match self {
            SampleLayout::Rgb => Some(ColorType::RGB),
            SampleLayout::Rgba => Some(ColorType::RGBA),
            _ => None,
        }
    }

    /// The declared layout of raw bytes in this sample layout, or `None` where
    /// no image can be built from it.
    pub fn color_type(self) -> (color_type: Option<ColorType>)
        ensures
            color_type == self.spec_color_type(),
    {
        match self {
            SampleLayout::Rgb => Some(ColorType::RGB),
            SampleLayout::Rgba => Some(ColorType::RGBA),
            _ => None,
        }
    }
}

/// What a decoder hands over: the raw bytes of one frame, row by row, the
/// layout of the samples in them and the dimensions of the frame.
#[derive(Debug)]
pub struct DecodedImage {
    pub bytes: Vec<u8>,
    pub layout: SampleLayout,
    pub width: u32,
    pub height: u32,
}

/// A decoded frame as plain values.
pub struct DecodedFrame {
    pub bytes: Seq<u8>,
    pub layout: SampleLayout,
    pub width: u32,
    pub height: u32,
}

impl View for DecodedImage {
    type V = DecodedFrame;

    open spec fn view(&self) -> DecodedFrame {
        DecodedFrame {
            bytes: self.bytes@,
            layout: self.layout,
            width: self.width,
            height: self.height,
        }
    }
}

/// The first frame that the `png` decoder, with its default limits and output
/// transformations, reads from `data` taken as the content of a PNG file, or
/// `None` where it reports an error instead.
pub uninterp spec fn png_first_frame(data: Seq<u8>) -> Option<DecodedFrame>;

/// Decodes the first frame of a PNG file held in memory.
///
/// This calls the `png` crate: `Decoder::new` on the bytes,
/// `Decoder::read_info`, and `Reader::next_frame` into a buffer of the
/// `OutputInfo::buffer_size` that the decoder asks for. Nothing is proved of
/// it. It is taken to be a function of the bytes alone: on success the frame is
/// the one that `png_first_frame` names, with the colour type, the width and
/// the height as the decoder's output info reports them, and an error comes
/// exactly where `png_first_frame` names none. What the frame holds is not
/// stated.
#[verifier::external_body]
pub(crate) fn decode_png(data: &[u8]) -> (res: Result<DecodedImage, png::DecodingError>)
    ensures
        match res {
            Ok(image) => png_first_frame(data@) == Some(image@),
            Err(_) => png_first_frame(data@) is None,
        },
{
    let (info, mut reader) = png::Decoder::new(data).read_info()?;
    let mut bytes = vec![0u8; info.buffer_size()];
    reader.next_frame(&mut bytes)?;
    let layout = match info.color_type {
        png::ColorType::Grayscale => SampleLayout::Grayscale,
        png::ColorType::RGB => SampleLayout::Rgb,
        png::ColorType::Indexed => SampleLayout::Indexed,
        png::ColorType::GrayscaleAlpha => SampleLayout::GrayscaleAlpha,
        png::ColorType::RGBA => SampleLayout::Rgba,
    };
    Ok(DecodedImage { bytes, layout, width: info.width, height: info.height })
}

} // verus!
