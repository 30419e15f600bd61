//! From stored bytes to the bytes sent to the frame, and from uploaded bytes
//! to what the store keeps.
use crate::codec::{
    decode_gray, encode, encoding, gray_decoding, linear_resampling, resize_linear, RasterFormat,
};
use crate::dither::{dither, dithered_pixels};
use crate::error::CoreError;
use crate::geometry::{lemma_scaled_fits, place, Placement};
use crate::raster::{composed, composite, lemma_u32_product_fits, Raster};
use vstd::prelude::*;

verus! {

/// The canvas a request asks for. A size counts only when both sides are
/// given; otherwise the image is sent at its own resolution.
#[derive(Clone, Copy, Debug, PartialEq, Eq, Structural)]
pub struct CanvasRequest {
    pub width: Option<u32>,
    pub height: Option<u32>,
}

impl CanvasRequest {
    pub open spec fn target_spec(self) -> Option<(u32, u32)> {
        match (self.width, self.height) {
            (Some(w), Some(h)) => Some((w, h)),
            _ => None,
        }
    }

    /// The requested canvas size, when both sides are given.
    pub fn target(&self) -> (r: Option<(u32, u32)>)
        ensures
            r == self.target_spec(),
    {
        match (self.width, self.height) {
            (Some(w), Some(h)) => Some((w, h)),
            _ => None,
        }
    }
}

/// Color depth the panel takes.
#[derive(Clone, Copy, Debug, PartialEq, Eq, Structural)]
pub enum ColorDepth {
    /// 8-bit grayscale.
    Gray,
    /// Black and white only; output is dithered.
    Bitonal,
}

/// Luma of the letterbox bars: black behind images that prefer a dark
/// background, white otherwise.
pub open spec fn background_luma(dark: bool) -> u8 {
    if dark {
        0
    } else {
        255
    }
}

/// The background luma for an image's dark-background preference.
pub fn background(dark: bool) -> (r: u8)
    ensures
        r == background_luma(dark),
{
    if dark {
        0
    } else {
        255
    }
}

/// Memory the fitting of a `sw × sh` source into `tw × th` needs can be
/// addressed: the canvas, and the resampler's intermediate buffer of `sw`
/// columns by up to `th` rows of 16 bytes each.
pub open spec fn canvas_fits(sw: int, sh: int, tw: int, th: int) -> bool {
    &&& tw * th <= isize::MAX
    &&& sw * th * 16 <= isize::MAX
}

/// The scaled source that is drawn on the canvas: its width, height and
/// values, or nothing when it scales to no pixel.
pub open spec fn scaled_source(sw: u32, sh: u32, pixels: Seq<u8>, tw: u32, th: u32) -> (
    int,
    int,
    Seq<u8>,
) {
    let p = Placement::of(sw as int, sh as int, tw as int, th as int);
    if p.width > 0 && p.height > 0 {
        (p.width as int, p.height as int, linear_resampling(sw, sh, pixels, p.width, p.height))
    } else {
        (0, 0, Seq::empty())
    }
}

/// Values of the `tw × th` canvas: the source scaled to fit, centered, over
/// the background.
pub open spec fn fitted_pixels(
    sw: u32,
    sh: u32,
    pixels: Seq<u8>,
    tw: u32,
    th: u32,
    background: u8,
) -> Seq<u8> {
    let p = Placement::of(sw as int, sh as int, tw as int, th as int);
    let (iw, ih, inner) = scaled_source(sw, sh, pixels, tw, th);
    composed(inner, iw, ih, p.offset_x as int, p.offset_y as int, background, tw as int, th as int)
}

proof fn lemma_mul_mono(a: int, b: int, c: int, d: int)
    requires
        0 <= a <= c,
        0 <= b <= d,
    ensures
        a * b <= c * d,
{
    assert(a * b <= c * d) by (nonlinear_arith)
        requires
            0 <= a <= c,
            0 <= b <= d,
    ;
}

/// Fits `src` into a `tw × th` canvas: scaled by the smaller axis ratio,
/// resampled with a linear filter, centered, over `background`.
pub fn fit_canvas(src: &Raster, tw: u32, th: u32, background: u8) -> (r: Raster)
    requires
        src.wf(),
        canvas_fits(src.width as int, src.height as int, tw as int, th as int),
    ensures
        r.wf(),
        r.width == tw,
        r.height == th,
        r.pixels@ == fitted_pixels(src.width, src.height, src.pixels@, tw, th, background),
{
    let p = place(src.width, src.height, tw, th);
    let inner = if p.width > 0 && p.height > 0 {
        proof {
            lemma_scaled_fits(src.width as int, src.height as int, tw as int, th as int);
            lemma_mul_mono(src.width as int, p.height as int, src.width as int, th as int);
            lemma_mul_mono(p.width as int, p.height as int, tw as int, th as int);
            assert(src.width > 0 && src.height > 0);
        }
        resize_linear(src, p.width, p.height)
    } else {
        Raster::empty()
    };
    composite(&inner, tw, th, p.offset_x, p.offset_y, background)
}

/// What is sent for `stored` (the bytes the store keeps for an image) on a
/// request for `target` at `depth`.
pub open spec fn rendering(stored: Seq<u8>, dark: bool, target: Option<(u32, u32)>, depth: ColorDepth) -> Result<
    Seq<u8>,
    CoreError,
> {
    if target is None && depth == ColorDepth::Gray {
        Ok(stored)
    } else if target matches Some((tw, th)) && (tw == 0 || th == 0) {
        Err(CoreError::InvalidSize)
    } else {
        match gray_decoding(stored) {
            None => Err(CoreError::Decode),
            Some((sw, sh, pixels)) => {
                if target matches Some((tw, th)) && !canvas_fits(
                    sw as int,
                    sh as int,
                    tw as int,
                    th as int,
                ) {
                    Err(CoreError::InvalidSize)
                } else {
                    let (w, h, canvas) = match target {
                        Some((tw, th)) => (
                            tw,
                            th,
                            fitted_pixels(sw, sh, pixels, tw, th, background_luma(dark)),
                        ),
                        None => (sw, sh, pixels),
                    };
                    let out = if depth == ColorDepth::Bitonal {
                        dithered_pixels(canvas, w as int)
                    } else {
                        canvas
                    };
                    match encoding(RasterFormat::Bmp, w, h, out) {
                        Some(bytes) => Ok(bytes),
                        None => Err(CoreError::Encode),
                    }
                }
            },
        }
    }
}

/// Without a target size, grayscale output is byte for byte what the store
/// holds.
pub proof fn lemma_passthrough(stored: Seq<u8>, dark: bool, request: CanvasRequest)
    requires
        request.target_spec() is None,
    ensures
        rendering(stored, dark, request.target_spec(), ColorDepth::Gray) == Ok::<Seq<u8>, CoreError>(
            stored,
        ),
{
}

/// Renders a stored image for the frame. Without a target size, grayscale
/// output is the stored bytes themselves; otherwise the image is decoded,
/// fitted to the canvas, dithered for bitonal panels and written as a bitmap.
pub fn render(stored: &Vec<u8>, dark: bool, request: &CanvasRequest, depth: ColorDepth) -> (r:
    Result<Vec<u8>, CoreError>)
    ensures
        r matches Ok(bytes) ==> rendering(stored@, dark, request.target_spec(), depth) == Ok::<
            Seq<u8>,
            CoreError,
        >(bytes@),
        r matches Err(e) ==> rendering(stored@, dark, request.target_spec(), depth) == Err::<
            Seq<u8>,
            CoreError,
        >(e),
{
    let target = request.target();
    if target.is_none() && depth == ColorDepth::Gray {
        return Ok(stored.clone());
    }
    if let Some((tw, th)) = target {
        if tw == 0 || th == 0 {
            return Err(CoreError::InvalidSize);
        }
    }
    let src = match decode_gray(stored.as_slice()) {
        Some(img) => img,
        None => return Err(CoreError::Decode),
    };
    let canvas = match target {
        Some((tw, th)) => {
            proof {
                lemma_u32_product_fits(tw as int, th as int);
                lemma_u32_product_fits(src.width as int, th as int);
            }
            let area = (tw as u128) * (th as u128);
            let column_load = (src.width as u128) * (th as u128) * 16;
            if area > isize::MAX as u128 || column_load > isize::MAX as u128 {
                return Err(CoreError::InvalidSize);
            }
            fit_canvas(&src, tw, th, background(dark))
        },
        None => src,
    };
    let out = match depth {
        ColorDepth::Bitonal => dither(&canvas),
        ColorDepth::Gray => canvas,
    };
    match encode(RasterFormat::Bmp, &out) {
        Some(bytes) => Ok(bytes),
        None => Err(CoreError::Encode),
    }
}

} // verus!
