//! The image container: packed RGBA pixels in row-major order.

use vstd::prelude::*;

use crate::common::{
    alpha, blue, display_order, green, pack_u8, packed, red, rgba_to_argb, unpack_u32,
    unpack_usize, ColorType, PointOperation, PointOperations,
};
use crate::decode::{decode_png, png_first_frame, DecodedFrame, DecodedImage};
use crate::error::ImageError;
use crate::histogram::{
    is_histogram_of, lemma_histogram_push, lemma_histogram_total, Channel, Histogram,
};

verus! {

/// Whether a raw buffer of `len` bytes holds exactly one image of the given
/// layout and dimensions. Both dimensions must be positive.
pub open spec fn buffer_fits(len: nat, color_type: ColorType, width: u32, height: u32) -> bool {
    &&& width > 0
    &&& height > 0
    &&& len == width * height * color_type.bytes_per_pixel()
}

/// The pixel that the raw bytes hold at index `i`, counted in pixels.
pub open spec fn pixel_at(bytes: Seq<u8>, color_type: ColorType, i: int) -> u32 {
    match color_type {
        ColorType::RGB => packed(
            bytes[3 * i] as int,
            bytes[3 * i + 1] as int,
            bytes[3 * i + 2] as int,
            255,
        ),
        ColorType::RGBA => packed(
            bytes[4 * i] as int,
            bytes[4 * i + 1] as int,
            bytes[4 * i + 2] as int,
            bytes[4 * i + 3] as int,
        ),
    }
}

/// The packed pixels that the raw bytes hold, in their order.
pub open spec fn pixels_of(bytes: Seq<u8>, color_type: ColorType) -> Seq<u32> {
    Seq::new(
        (bytes.len() as int / color_type.bytes_per_pixel()) as nat,
        |i: int| pixel_at(bytes, color_type, i),
    )
}

/// Whether `res` is what building an image from the decoded frame gives: a
/// frame that is not red-green-blue, with or without alpha, is unsupported; of
/// the others, one whose bytes do not fit its dimensions is rejected, and any
/// other gives the image of its pixels.
pub open spec fn built_from_frame(res: Result<ImgRGBA, ImageError>, frame: DecodedFrame) -> bool {
    match frame.layout.spec_color_type() {
        None => res == Err::<ImgRGBA, ImageError>(ImageError::UnsupportedColorType),
        Some(color_type) => built_from_bytes(
            res,
            frame.bytes,
            color_type,
            frame.width,
            frame.height,
        ),
    }
}

/// Whether `res` is what building an image from raw bytes gives: the image of
/// the pixels that the bytes hold, with the declared dimensions, where the
/// buffer fits them, and `InvalidBufferLength` where it does not.
pub open spec fn built_from_bytes(
    res: Result<ImgRGBA, ImageError>,
    bytes: Seq<u8>,
    color_type: ColorType,
    width: u32,
    height: u32,
) -> bool {
    match res {
        Ok(img) => {
            &&& buffer_fits(bytes.len(), color_type, width, height)
            &&& img@ == pixels_of(bytes, color_type)
            &&& img.spec_width() == width
            &&& img.spec_height() == height
        },
        Err(e) => {
            &&& !buffer_fits(bytes.len(), color_type, width, height)
            &&& e == ImageError::InvalidBufferLength
        },
    }
}

/// Represents a image in RGBA color format, where all channels are contained in a single u32 value
#[derive(Debug)]
pub struct ImgRGBA {
    data: Vec<u32>,
    /// Image width
    width: u32,
    /// Image height
    height: u32,
}

impl View for ImgRGBA {
    type V = Seq<u32>;

    /// The pixels in row-major order, each packed in storage order.
    closed spec fn view(&self) -> Seq<u32> {
        self.data@
    }
}

impl Clone for ImgRGBA {
    /// A copy with the same pixels and dimensions.
    fn clone(&self) -> (copy: Self)
        ensures
            copy@ == self@,
            copy.spec_width() == self.spec_width(),
            copy.spec_height() == self.spec_height(),
    {
        proof {
            use_type_invariant(self);
        }
        Self { data: self.data.clone(), width: self.width, height: self.height }
    }
}

impl ImgRGBA {
    /// The width of the image in pixels.
    pub closed spec fn spec_width(&self) -> u32 {
        self.width
    }

    /// The height of the image in pixels.
    pub closed spec fn spec_height(&self) -> u32 {
        self.height
    }

    /// What holds of every image: both dimensions are positive, and there is
    /// one pixel for each column of each row.
    #[verifier::type_invariant]
    pub open spec fn well_formed(&self) -> bool {
        &&& self.spec_width() > 0
        &&& self.spec_height() > 0
        &&& self@.len() == self.spec_width() * self.spec_height()
    }

    /// Creates a new [`ImgRGBA`](crate::rgb::ImgRGBA) from a given bytes slice
    ///
    /// The bytes are grouped into pixels in the declared layout. The buffer must
    /// hold exactly `width * height` pixels, with both dimensions positive; any
    /// other buffer is rejected with `InvalidBufferLength`.
    pub fn from_bytes(bytes: &[u8], color_type: ColorType, width: u32, height: u32) -> (res: Result<
        Self,
        ImageError,
    >)
        ensures
            built_from_bytes(res, bytes@, color_type, width, height),
    {
        assert(width * height <= 0xFFFF_FFFF * 0xFFFF_FFFF) by (nonlinear_arith)
            requires
                width <= 0xFFFF_FFFF,
                height <= 0xFFFF_FFFF,
        ;
        let pixel_count: u64 = (width as u64) * (height as u64);
        let expected: u128 = match color_type {
            ColorType::RGB => 3 * (pixel_count as u128),
            ColorType::RGBA => 4 * (pixel_count as u128),
        };
        if width == 0 || height == 0 || bytes.len() as u128 != expected {
            return Err(ImageError::InvalidBufferLength);
        }
        let count: usize = pixel_count as usize;
        let mut data: Vec<u32> = Vec::with_capacity(count);
        match color_type {
            ColorType::RGB => {
                let mut i: usize = 0;
                while i < count
                    invariant
                        i <= count,
                        color_type == ColorType::RGB,
                        bytes@.len() == 3 * count,
                        bytes@.len() <= usize::MAX,
                        data@.len() == i,
                        forall|j: int| 0 <= j < i ==> data@[j] == pixel_at(bytes@, color_type, j),
                    decreases count - i,
                {
                    let px = pack_u8(bytes[3 * i], bytes[3 * i + 1], bytes[3 * i + 2], 255u8);
                    data.push(px);
                    i += 1;
                }
            },
            ColorType::RGBA => {
                let mut i: usize = 0;
                while i < count
                    invariant
                        i <= count,
                        color_type == ColorType::RGBA,
                        bytes@.len() == 4 * count,
                        bytes@.len() <= usize::MAX,
                        data@.len() == i,
                        forall|j: int| 0 <= j < i ==> data@[j] == pixel_at(bytes@, color_type, j),
                    decreases count - i,
                {
                    let px = pack_u8(
                        bytes[4 * i],
                        bytes[4 * i + 1],
                        bytes[4 * i + 2],
                        bytes[4 * i + 3],
                    );
                    data.push(px);
                    i += 1;
                }
            },
        }
        assert(data@ =~= pixels_of(bytes@, color_type));
        Ok(Self { data, width, height })
    }

    /// Builds the image from what a decoder handed over.
    ///
    /// Only frames in red-green-blue, with or without alpha, are supported; any
    /// other is rejected with `UnsupportedColorType`. A supported frame is
    /// built as `from_bytes` builds it from the frame's bytes and dimensions.
    pub fn from_decoded(image: &DecodedImage) -> (res: Result<Self, ImageError>)
        ensures
            built_from_frame(res, image@),
    {
        match image.layout.color_type() {
            Some(color_type) => Self::from_bytes(
                image.bytes.as_slice(),
                color_type,
                image.width,
                image.height,
            ),
            None => Err(ImageError::UnsupportedColorType),
        }
    }

    /// Decodes a PNG file held in memory and builds the image from its first
    /// frame.
    ///
    /// Where the decoder fails, its error is handed on in `DecodeFailure`.
    /// Where it gives a frame, the result is that of `from_decoded` on it.
    pub fn from_png(data: &[u8]) -> (res: Result<Self, ImageError>)
        ensures
            match png_first_frame(data@) {
                Some(frame) => built_from_frame(res, frame),
                None => res matches Err(ImageError::DecodeFailure(_)),
            },
    {
        match decode_png(data) {
            Ok(image) => Self::from_decoded(&image),
            Err(e) => Err(ImageError::DecodeFailure(e)),
        }
    }

    /// The width and the height of the image, in pixels. Both are positive and
    /// their product is the number of pixels.
    pub fn dimensions(&self) -> (dims: (u32, u32))
        ensures
            dims.0 == self.spec_width(),
            dims.1 == self.spec_height(),
            dims.0 > 0,
            dims.1 > 0,
            self@.len() == dims.0 * dims.1,
    {
        proof {
            use_type_invariant(self);
        }
        (self.width, self.height)
    }

    /// The place of the pixel at column `x` and row `y` in the row-major
    /// sequence of pixels.
    pub open spec fn index_of(&self, x: int, y: int) -> int {
        y * self.spec_width() + x
    }

    /// Whether column `x` and row `y` name a pixel of the image.
    pub open spec fn in_range(&self, x: int, y: int) -> bool {
        0 <= x < self.spec_width() && 0 <= y < self.spec_height()
    }

    /// Converts [`ImgRGBA`](crate::rgb::ImgRGBA) into a ARGB 32 bit framebuffer
    ///
    /// The buffer holds every pixel in display order, in the order of the
    /// image. The image is left as it is.
    pub fn to_argb_framebuffer(&self) -> (buffer: Vec<u32>)
        ensures
            buffer@ == Seq::new(self@.len(), |i: int| display_order(self@[i])),
    {
        let len = self.data.len();
        let mut buffer: Vec<u32> = Vec::with_capacity(len);
        let mut i: usize = 0;
        while i < len
            invariant
                i <= len,
                len == self.data@.len(),
                buffer@.len() == i,
                forall|j: int| 0 <= j < i ==> buffer@[j] == display_order(self.data@[j]),
            decreases len - i,
        {
            buffer.push(rgba_to_argb(self.data[i]));
            i += 1;
        }
        assert(buffer@ =~= Seq::new(self@.len(), |i: int| display_order(self@[i])));
        buffer
    }

    /// The pixel at column `x` and row `y`, packed in storage order, or
    /// `IndexOutOfRange` if the image has no such column or row.
    pub fn get_px(&self, x: usize, y: usize) -> (res: Result<u32, ImageError>)
        ensures
            match res {
                Ok(px) => self.in_range(x as int, y as int) && px == self@[self.index_of(
                    x as int,
                    y as int,
                )],
                Err(e) => !self.in_range(x as int, y as int) && e == ImageError::IndexOutOfRange,
            },
    {
        proof {
            use_type_invariant(self);
        }
        let width = self.width as usize;
        if x >= width || y >= self.height as usize {
            return Err(ImageError::IndexOutOfRange);
        }
        assert(0 <= y * width && y * width + x < width * self.height) by (nonlinear_arith)
            requires
                x < width,
                0 <= y < self.height,
        ;
        assert(self.data@.len() == self.data.len());
        Ok(self.data[y * width + x])
    }

    /// The red, green, blue and alpha value of the pixel at column `x` and row
    /// `y`, or `IndexOutOfRange` if the image has no such column or row.
    pub fn get_px_unpacked_u32(&self, x: usize, y: usize) -> (res: Result<
        (u32, u32, u32, u32),
        ImageError,
    >)
        ensures
            match res {
                Ok(rgba) => {
                    let px = self@[self.index_of(x as int, y as int)];
                    &&& self.in_range(x as int, y as int)
                    &&& rgba.0 == red(px)
                    &&& rgba.1 == green(px)
                    &&& rgba.2 == blue(px)
                    &&& rgba.3 == alpha(px)
                },
                Err(e) => !self.in_range(x as int, y as int) && e == ImageError::IndexOutOfRange,
            },
    {
        match self.get_px(x, y) {
            Ok(px) => Ok(unpack_u32(px)),
            Err(e) => Err(e),
        }
    }

    /// Applies a point operation to every pixel, in place. The dimensions stay.
    pub fn apply(&mut self, op: PointOperation)
        ensures
            final(self)@ == op.on_pixels(old(self)@),
            final(self).spec_width() == old(self).spec_width(),
            final(self).spec_height() == old(self).spec_height(),
    {
        proof {
            use_type_invariant(&*self);
        }
        let len = self.data.len();
        let mut i: usize = 0;
        while i < len
            invariant
                i <= len,
                len == self.data@.len(),
                len == old(self).data@.len(),
                self.width == old(self).width,
                self.height == old(self).height,
                self.width > 0,
                self.height > 0,
                len == self.width * self.height,
                forall|j: int| 0 <= j < i ==> self.data@[j] == op.on_pixel(old(self).data@[j]),
                forall|j: int| i <= j < len ==> self.data@[j] == old(self).data@[j],
            decreases len - i,
        {
            let px = op.apply_to_pixel(self.data[i]);
            self.data[i] = px;
            i += 1;
        }
        assert(self.data@ =~= op.on_pixels(old(self)@));
    }

    /// The histograms of the red, the green and the blue channel, in this
    /// order, from one pass over the pixels.
    ///
    /// Each bin holds the number of pixels whose channel has the bin's
    /// intensity, so the bins of each histogram sum to the number of pixels.
    /// That number must fit in a `u32`, as every count does.
    pub fn histogram(&self) -> (hists: (Histogram, Histogram, Histogram))
        requires
            self@.len() <= u32::MAX,
        ensures
            is_histogram_of(hists.0@, self@, Channel::Red),
            is_histogram_of(hists.1@, self@, Channel::Green),
            is_histogram_of(hists.2@, self@, Channel::Blue),
            hists.0.total() == self@.len(),
            hists.1.total() == self@.len(),
            hists.2.total() == self@.len(),
    {
        let mut r_data: [u32; 256] = [0; 256];
        let mut g_data: [u32; 256] = [0; 256];
        let mut b_data: [u32; 256] = [0; 256];

        let len = self.data.len();
        let mut i: usize = 0;
        while i < len
            invariant
                i <= len,
                len == self.data@.len(),
                len <= u32::MAX,
                is_histogram_of(r_data@, self.data@.take(i as int), Channel::Red),
                is_histogram_of(g_data@, self.data@.take(i as int), Channel::Green),
                is_histogram_of(b_data@, self.data@.take(i as int), Channel::Blue),
            decreases len - i,
        {
            let px = self.data[i];
            let (r, g, b, _) = unpack_usize(px);
            proof {
                let seen = self.data@.take(i as int);
                assert(self.data@.take(i + 1) =~= seen.push(px));
                lemma_histogram_push(r_data@, seen, px, Channel::Red);
                lemma_histogram_push(g_data@, seen, px, Channel::Green);
                lemma_histogram_push(b_data@, seen, px, Channel::Blue);
            }
            r_data[r] = r_data[r] + 1;
            g_data[g] = g_data[g] + 1;
            b_data[b] = b_data[b] + 1;
            i += 1;
        }
        proof {
            assert(self.data@.take(len as int) =~= self.data@);
            lemma_histogram_total(r_data@, self@, Channel::Red);
            lemma_histogram_total(g_data@, self@, Channel::Green);
            lemma_histogram_total(b_data@, self@, Channel::Blue);
        }
        (Histogram::from(r_data), Histogram::from(g_data), Histogram::from(b_data))
    }
}

impl PointOperations for ImgRGBA {
    fn grayscale(&mut self)
        ensures
            final(self).spec_width() == old(self).spec_width(),
            final(self).spec_height() == old(self).spec_height(),
    {
        self.apply(PointOperation::Grayscale)
    }

    fn invert(&mut self)
        ensures
            final(self).spec_width() == old(self).spec_width(),
            final(self).spec_height() == old(self).spec_height(),
    {
        self.apply(PointOperation::Invert)
    }

    fn trashold(&mut self, limit: u32)
        ensures
            final(self).spec_width() == old(self).spec_width(),
            final(self).spec_height() == old(self).spec_height(),
    {
        self.apply(PointOperation::Threshold(limit))
    }
}

} // verus!
