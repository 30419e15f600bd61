//! Ordered (Bayer 4 × 4) dithering from grayscale to black and white.
use crate::raster::{column, row, Raster};
use vstd::prelude::*;

verus! {

/// Rank of cell `k = 4 * row + column` of the 4 × 4 Bayer matrix.
pub open spec fn bayer_rank(k: int) -> int {
    if k == 0 { 0 }
    else if k == 1 { 8 }
    else if k == 2 { 2 }
    else if k == 3 { 10 }
    else if k == 4 { 12 }
    else if k == 5 { 4 }
    else if k == 6 { 14 }
    else if k == 7 { 6 }
    else if k == 8 { 3 }
    else if k == 9 { 11 }
    else if k == 10 { 1 }
    else if k == 11 { 9 }
    else if k == 12 { 15 }
    else if k == 13 { 7 }
    else if k == 14 { 13 }
    else { 5 }
}

/// Luma at or above which the pixel at `(x, y)` turns white. The matrix
/// repeats every four pixels on both axes.
pub open spec fn threshold(x: int, y: int) -> int {
    16 * bayer_rank(4 * (y % 4) + x % 4) + 8
}

/// The black (0) or white (255) value of a pixel of luma `v` at `(x, y)`.
pub open spec fn dithered(x: int, y: int, v: u8) -> u8 {
    if v as int >= threshold(x, y) {
        255
    } else {
        0
    }
}

/// What dithering makes of a raster's values: each depends on its own
/// coordinates and luma alone.
pub open spec fn dithered_pixels(src: Seq<u8>, width: int) -> Seq<u8> {
    Seq::new(src.len(), |i: int| dithered(column(i, width), row(i, width), src[i]))
}

fn bayer_rank_of(k: usize) -> (r: u8)
    requires
        k < 16,
    ensures
        r as int == bayer_rank(k as int),
{
    match k {
        0 => 0,
        1 => 8,
        2 => 2,
        3 => 10,
        4 => 12,
        5 => 4,
        6 => 14,
        7 => 6,
        8 => 3,
        9 => 11,
        10 => 1,
        11 => 9,
        12 => 15,
        13 => 7,
        14 => 13,
        _ => 5,
    }
}

/// Reduces a grayscale raster to black and white by ordered dithering.
pub fn dither(src: &Raster) -> (r: Raster)
    requires
        src.wf(),
    ensures
        r.wf(),
        r.width == src.width,
        r.height == src.height,
        r.pixels@ == dithered_pixels(src.pixels@, src.width as int),
        forall|i: int| 0 <= i < r.pixels@.len() ==> r.pixels@[i] == 0 || r.pixels@[i] == 255,
{
    let n = src.pixels.len();
    let w = src.width as usize;
    let ghost target = dithered_pixels(src.pixels@, src.width as int);
    let mut pixels: Vec<u8> = Vec::with_capacity(n);
    let mut i: usize = 0;
    while i < n
        invariant
            n == src.pixels@.len(),
            w == src.width,
            src.wf(),
            target == dithered_pixels(src.pixels@, src.width as int),
            i <= n,
            pixels@.len() == i,
            forall|j: int| 0 <= j < i ==> pixels@[j] == target[j],
        decreases n - i,
    {
        proof {
            assert(w > 0) by (nonlinear_arith)
                requires
                    i < n,
                    n == src.width as int * src.height as int,
                    w == src.width,
            ;
        }
        let x = i % w;
        let y = i / w;
        let level = bayer_rank_of(4 * (y % 4) + x % 4);
        let t: u16 = 16 * (level as u16) + 8;
        let v = src.pixels[i];
        let out: u8 = if (v as u16) >= t {
            255
        } else {
            0
        };
        pixels.push(out);
        i = i + 1;
    }
    assert(pixels@ =~= target);
    Raster { width: src.width, height: src.height, pixels }
}

/// Dithering is deterministic: rasters with the same size and values dither
/// to the same values.
pub proof fn lemma_dither_deterministic(a: &Raster, b: &Raster)
    requires
        a.wf(),
        b.wf(),
        a.width == b.width,
        a.height == b.height,
        a.pixels@ == b.pixels@,
    ensures
        dithered_pixels(a.pixels@, a.width as int) == dithered_pixels(b.pixels@, b.width as int),
{
}

} // verus!
