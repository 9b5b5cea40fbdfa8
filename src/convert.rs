//! Frame conversion: validating a raw RGB buffer and turning it into the
//! image handed to the detector.
use vstd::prelude::*;
use vstd::slice::slice_to_vec;

verus! {

/// Declares the `image` crate's dynamic image so that it can be carried
/// through verified code; nothing inside it is visible here.
#[verifier::external_type_specification]
#[verifier::external_body]
pub struct ExDynamicImage(image::DynamicImage);

/// Why a raw frame could not be converted.
#[derive(Debug, Clone, Copy, PartialEq, Eq, Structural)]
pub enum ConversionError {
    /// The buffer length is not `width * height * 3`, or a dimension is zero.
    SizeMismatch,
}

/// Number of bytes an RGB frame of the given dimensions occupies.
pub open spec fn rgb_len(width: u32, height: u32) -> int {
    width as int * height as int * 3
}

/// A buffer of `len` bytes is a well-formed RGB frame of `width` x `height`.
pub open spec fn frame_fits(len: int, width: u32, height: u32) -> bool {
    width > 0 && height > 0 && len == rgb_len(width, height)
}

/// A validated RGB image: 3 bytes per pixel, row-major, no padding.
pub struct CanonicalImage {
    width: u32,
    height: u32,
    pixels: Vec<u8>,
}

impl CanonicalImage {
    /// The image's pixel layout is consistent with its dimensions.
    pub open spec fn wf(&self) -> bool {
        frame_fits(self.spec_pixels().len() as int, self.spec_width(), self.spec_height())
    }

    pub closed spec fn spec_width(&self) -> u32 {
        self.width
    }

    pub closed spec fn spec_height(&self) -> u32 {
        self.height
    }

    pub closed spec fn spec_pixels(&self) -> Seq<u8> {
        self.pixels@
    }

    /// This image is what converting `buffer` at `width` x `height` yields.
    pub open spec fn converted_from(&self, buffer: Seq<u8>, width: u32, height: u32) -> bool {
        &&& self.spec_width() == width
        &&& self.spec_height() == height
        &&& self.spec_pixels() == buffer
    }

    pub fn width(&self) -> (r: u32)
        ensures
            r == self.spec_width(),
    {
        self.width
    }

    pub fn height(&self) -> (r: u32)
        ensures
            r == self.spec_height(),
    {
        self.height
    }

    pub fn pixels(&self) -> (r: &[u8])
        ensures
            r@ == self.spec_pixels(),
    {
        self.pixels.as_slice()
    }

    /// Hands the pixels over as the `image` crate's RGB image.
    pub fn into_dynamic_image(self) -> image::DynamicImage
        requires
            self.wf(),
    {
        let r = rgb8_image(self.width, self.height, self.pixels);
        r.unwrap()
    }
}

/// Relies on `image::ImageBuffer::from_raw` (wrapped as `DynamicImage::ImageRgb8`):
/// it returns `Some` exactly when `3 * width * height` fits in `usize` and is at
/// most the buffer's length.
#[verifier::external_body]
fn rgb8_image(width: u32, height: u32, data: Vec<u8>) -> (r: Option<image::DynamicImage>)
    ensures
        r.is_some() <==> rgb_len(width, height) <= data@.len(),
{
    image::ImageBuffer::<image::Rgb<u8>, Vec<u8>>::from_raw(width, height, data)
        .map(image::DynamicImage::ImageRgb8)
}

/// Validates `buffer` as an RGB frame of `width` x `height` and copies it into
/// a canonical image. Zero dimensions are always rejected.
pub fn convert(buffer: &[u8], width: u32, height: u32) -> (r: Result<CanonicalImage, ConversionError>)
    ensures
        r is Ok <==> frame_fits(buffer@.len() as int, width, height),
        r is Err ==> r == Err::<CanonicalImage, ConversionError>(ConversionError::SizeMismatch),
        buffer@.len() != rgb_len(width, height) ==> r is Err,
        r matches Ok(img) ==> img.wf() && img.converted_from(buffer@, width, height),
{
    if width == 0 || height == 0 {
        return Err(ConversionError::SizeMismatch);
    }
    proof {
        assert(width as int * height as int <= 0xffff_ffff * 0xffff_ffff) by (nonlinear_arith)
            requires
                width <= 0xffff_ffffu32,
                height <= 0xffff_ffffu32,
        ;
    }
    let expected: u128 = width as u128 * height as u128 * 3;
    if buffer.len() as u128 != expected {
        return Err(ConversionError::SizeMismatch);
    }
    Ok(CanonicalImage { width, height, pixels: slice_to_vec(buffer) })
}

/// Converting the same frame twice gives the same dimensions and bit-identical
/// pixel data.
pub proof fn conversion_is_idempotent(
    a: CanonicalImage,
    b: CanonicalImage,
    buffer: Seq<u8>,
    width: u32,
    height: u32,
)
    requires
        a.converted_from(buffer, width, height),
        b.converted_from(buffer, width, height),
    ensures
        a.spec_pixels() == b.spec_pixels(),
        a.spec_width() == b.spec_width(),
        a.spec_height() == b.spec_height(),
{
}

} // verus!
