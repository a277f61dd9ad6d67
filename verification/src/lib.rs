//! In-memory RGBA images: a packed-pixel codec, an image container, point
//! operations on whole images and per-channel intensity histograms.

pub mod common;
pub mod decode;
pub mod error;
pub mod histogram;
pub mod rgb;

pub use common::{
    pack_u32, pack_u8, rgba_to_argb, unpack_argb_u32, unpack_u32, unpack_u8, unpack_usize,
    ColorType, PointOperation, PointOperations,
};
pub use decode::{DecodedImage, SampleLayout};
pub use error::ImageError;
pub use histogram::Histogram;
pub use rgb::ImgRGBA;
