//! Decoding, resampling and encoding, done by the `image` crate.
//!
//! What those routines compute takes pages to state; the contracts below
//! name their results and state the sizes the crate guarantees.
use crate::raster::Raster;
use vstd::prelude::*;

verus! {

/// Container formats the library writes.
#[derive(Clone, Copy, Debug, PartialEq, Eq, Structural)]
pub enum RasterFormat {
    /// Uncompressed bitmap, sent to the frame.
    Bmp,
    /// Lossy JPEG, used for gallery previews.
    Jpeg,
}

/// Width, height and 8-bit luma values that the decoder makes of `bytes`, or
/// `None` when they are not an image it recognizes.
pub uninterp spec fn gray_decoding(bytes: Seq<u8>) -> Option<(u32, u32, Seq<u8>)>;

/// Values of a raster resampled with a linear (triangle) filter.
pub uninterp spec fn linear_resampling(
    width: u32,
    height: u32,
    pixels: Seq<u8>,
    new_width: u32,
    new_height: u32,
) -> Seq<u8>;

/// Values of a raster reduced by area averaging for a preview.
pub uninterp spec fn thumbnail_sampling(
    width: u32,
    height: u32,
    pixels: Seq<u8>,
    new_width: u32,
    new_height: u32,
) -> Seq<u8>;

/// Bytes of a grayscale raster written in `format`, or `None` when the
/// encoder refuses it.
pub uninterp spec fn encoding(format: RasterFormat, width: u32, height: u32, pixels: Seq<u8>) -> Option<
    Seq<u8>,
>;

/// Relies on `image::load_from_memory`, which guesses the format from the
/// bytes and decodes them, and on `DynamicImage::into_luma8`, which turns the
/// result into 8-bit luma, one value per pixel, row by row.
#[verifier::external_body]
pub(crate) fn decode_gray(bytes: &[u8]) -> (r: Option<Raster>)
    ensures
        r matches Some(img) ==> img.wf() && gray_decoding(bytes@) == Some(
            (img.width, img.height, img.pixels@),
        ),
        r is None ==> gray_decoding(bytes@) is None,
{
    match image::load_from_memory(bytes) {
        Ok(decoded) => {
            let gray = decoded.into_luma8();
            let (width, height) = gray.dimensions();
            Some(Raster { width, height, pixels: gray.into_raw() })
        },
        Err(_) => None,
    }
}

/// Relies on `image::imageops::resize` with `FilterType::Triangle`, which
/// returns a `new_width × new_height` buffer. Its first pass holds the
/// source's width times `new_height` pixels as four `f32` each.
#[verifier::external_body]
pub(crate) fn resize_linear(src: &Raster, new_width: u32, new_height: u32) -> (r: Raster)
    requires
        src.wf(),
        src.width > 0,
        src.height > 0,
        new_width > 0,
        new_height > 0,
        src.width as int * new_height as int * 16 <= isize::MAX,
        new_width as int * new_height as int <= isize::MAX,
    ensures
        r.wf(),
        r.width == new_width,
        r.height == new_height,
        r.pixels@ == linear_resampling(src.width, src.height, src.pixels@, new_width, new_height),
{
    let view = image::ImageBuffer::<image::Luma<u8>, &[u8]>::from_raw(
        src.width,
        src.height,
        src.pixels.as_slice(),
    ).expect("one value per pixel");
    let out = image::imageops::resize(&view, new_width, new_height, image::imageops::FilterType::Triangle);
    Raster { width: new_width, height: new_height, pixels: out.into_raw() }
}

/// Relies on `image::imageops::thumbnail`, which returns a
/// `new_width × new_height` buffer.
#[verifier::external_body]
pub(crate) fn thumbnail_of(src: &Raster, new_width: u32, new_height: u32) -> (r: Raster)
    requires
        src.wf(),
        new_width as int * new_height as int <= isize::MAX,
    ensures
        r.wf(),
        r.width == new_width,
        r.height == new_height,
        r.pixels@ == thumbnail_sampling(src.width, src.height, src.pixels@, new_width, new_height),
{
    let view = image::ImageBuffer::<image::Luma<u8>, &[u8]>::from_raw(
        src.width,
        src.height,
        src.pixels.as_slice(),
    ).expect("one value per pixel");
    let out = image::imageops::thumbnail(&view, new_width, new_height);
    Raster { width: new_width, height: new_height, pixels: out.into_raw() }
}

/// Relies on `image::write_buffer_with_format` with `ExtendedColorType::L8`,
/// which writes the raster in the chosen container or reports an error.
#[verifier::external_body]
pub(crate) fn encode(format: RasterFormat, src: &Raster) -> (r: Option<Vec<u8>>)
    requires
        src.wf(),
    ensures
        r matches Some(bytes) ==> encoding(format, src.width, src.height, src.pixels@) == Some(
            bytes@,
        ),
        r is None ==> encoding(format, src.width, src.height, src.pixels@) is None,
{
    let kind = match format {
        RasterFormat::Bmp => image::ImageFormat::Bmp,
        RasterFormat::Jpeg => image::ImageFormat::Jpeg,
    };
    let mut out = std::io::Cursor::new(Vec::new());
    match image::write_buffer_with_format(&mut out, &src.pixels, src.width, src.height, image::ExtendedColorType::L8, kind) {
        Ok(()) => Some(out.into_inner()),
        Err(_) => None,
    }
}

} // verus!
