//! Single-channel 8-bit rasters and overlay compositing.
use vstd::arithmetic::div_mod::lemma_fundamental_div_mod;
use vstd::prelude::*;

verus! {

/// A grayscale image: `width × height` luma values, row by row.
#[derive(Debug)]
pub struct Raster {
    pub width: u32,
    pub height: u32,
    pub pixels: Vec<u8>,
}

impl Raster {
    /// The buffer holds exactly one value per pixel.
    pub open spec fn wf(&self) -> bool {
        self.pixels@.len() == self.width as int * self.height as int
    }

    /// Builds a raster from its rows, laid end to end; `None` when the buffer
    /// does not hold exactly one value per pixel.
    pub fn new(width: u32, height: u32, pixels: Vec<u8>) -> (r: Option<Raster>)
        ensures
            r.is_some() <==> pixels@.len() == width as int * height as int,
            r matches Some(img) ==> img.wf() && img.width == width && img.height == height
                && img.pixels@ == pixels@,
    {
        let expected = (width as u64).checked_mul(height as u64);
        match expected {
            Some(n) => {
                if pixels.len() as u64 == n {
                    Some(Raster { width, height, pixels })
                } else {
                    None
                }
            },
            None => {
                proof {
                    lemma_u32_product_fits(width as int, height as int);
                }
                None
            },
        }
    }

    /// A raster with no pixels.
    pub fn empty() -> (r: Raster)
        ensures
            r.wf(),
            r.width == 0,
            r.height == 0,
    {
        Raster { width: 0, height: 0, pixels: Vec::new() }
    }

    /// A `width × height` raster of a single value.
    pub fn filled(width: u32, height: u32, value: u8) -> (r: Raster)
        requires
            width as int * height as int <= usize::MAX,
        ensures
            r.wf(),
            r.width == width,
            r.height == height,
            forall|i: int| 0 <= i < r.pixels@.len() ==> r.pixels@[i] == value,
    {
        let n = (width as usize) * (height as usize);
        let pixels = vec![value; n];
        Raster { width, height, pixels }
    }
}

pub proof fn lemma_u32_product_fits(a: int, b: int)
    requires
        0 <= a <= u32::MAX,
        0 <= b <= u32::MAX,
    ensures
        0 <= a * b <= u64::MAX,
{
    assert(0 <= a * b <= u64::MAX) by (nonlinear_arith)
        requires
            0 <= a <= u32::MAX,
            0 <= b <= u32::MAX,
    ;
}

/// Column and row of index `i` in a raster `width` pixels wide.
pub open spec fn column(i: int, width: int) -> int {
    i % width
}

pub open spec fn row(i: int, width: int) -> int {
    i / width
}

/// Value at index `i` of a canvas `cw` pixels wide on which an `iw × ih`
/// image `inner` is laid at `(ox, oy)` over `background`, without blending.
pub open spec fn composed_pixel(
    inner: Seq<u8>,
    iw: int,
    ih: int,
    ox: int,
    oy: int,
    background: u8,
    cw: int,
    i: int,
) -> u8 {
    let x = column(i, cw);
    let y = row(i, cw);
    if ox <= x < ox + iw && oy <= y < oy + ih {
        inner[(y - oy) * iw + (x - ox)]
    } else {
        background
    }
}

/// All values of a `cw × ch` canvas with `inner` laid at `(ox, oy)`.
pub open spec fn composed(
    inner: Seq<u8>,
    iw: int,
    ih: int,
    ox: int,
    oy: int,
    background: u8,
    cw: int,
    ch: int,
) -> Seq<u8> {
    Seq::new((cw * ch) as nat, |i: int| composed_pixel(inner, iw, ih, ox, oy, background, cw, i))
}

/// Index `i` below `w * h` lies in a row below `h`.
pub proof fn lemma_index_in_grid(i: int, w: int, h: int)
    requires
        w > 0,
        0 <= i < w * h,
    ensures
        0 <= row(i, w) < h,
        0 <= column(i, w) < w,
        i == row(i, w) * w + column(i, w),
{
    lemma_fundamental_div_mod(i, w);
    let y = i / w;
    let x = i % w;
    assert(0 <= y < h) by (nonlinear_arith)
        requires
            w > 0,
            i == w * y + x,
            0 <= x < w,
            0 <= i < w * h,
    ;
    assert(y * w == w * y) by (nonlinear_arith);
}

/// A column below `w` and a row below `h` give an index below `w * h`.
pub proof fn lemma_cell_in_bounds(x: int, y: int, w: int, h: int)
    requires
        0 <= x < w,
        0 <= y < h,
    ensures
        0 <= y * w + x < w * h,
{
    assert(0 <= y * w + x < w * h) by (nonlinear_arith)
        requires
            0 <= x < w,
            0 <= y < h,
    ;
}

/// Lays `inner` onto a `cw × ch` canvas of `background` with its top-left
/// corner at `(ox, oy)`. Pixels are copied, not blended.
pub fn composite(inner: &Raster, cw: u32, ch: u32, ox: u32, oy: u32, background: u8) -> (r: Raster)
    requires
        inner.wf(),
        ox as int + inner.width as int <= cw as int,
        oy as int + inner.height as int <= ch as int,
        cw as int * ch as int <= usize::MAX,
    ensures
        r.wf(),
        r.width == cw,
        r.height == ch,
        r.pixels@ == composed(
            inner.pixels@,
            inner.width as int,
            inner.height as int,
            ox as int,
            oy as int,
            background,
            cw as int,
            ch as int,
        ),
{
    let n = (cw as usize) * (ch as usize);
    let iw = inner.width as usize;
    let ih = inner.height as usize;
    let ghost spec_view = composed(
        inner.pixels@,
        iw as int,
        ih as int,
        ox as int,
        oy as int,
        background,
        cw as int,
        ch as int,
    );
    let inner_len = inner.pixels.len();
    let mut pixels: Vec<u8> = Vec::with_capacity(n);
    let mut i: usize = 0;
    while i < n
        invariant
            n == cw as int * ch as int,
            inner.wf(),
            inner_len == inner.pixels@.len(),
            iw == inner.width,
            ih == inner.height,
            ox as int + iw <= cw as int,
            oy as int + ih <= ch as int,
            spec_view.len() == n,
            spec_view == composed(
                inner.pixels@,
                iw as int,
                ih as int,
                ox as int,
                oy as int,
                background,
                cw as int,
                ch as int,
            ),
            i <= n,
            pixels@.len() == i,
            forall|j: int| 0 <= j < i ==> pixels@[j] == spec_view[j],
        decreases n - i,
    {
        proof {
            assert(cw > 0) by (nonlinear_arith)
                requires
                    i < n,
                    n == cw as int * ch as int,
            ;
            lemma_index_in_grid(i as int, cw as int, ch as int);
        }
        let x = i % (cw as usize);
        let y = i / (cw as usize);
        let ox2 = ox as usize;
        let oy2 = oy as usize;
        let value = if ox2 <= x && x < ox2 + iw && oy2 <= y && y < oy2 + ih {
            proof {
                lemma_cell_in_bounds((x - ox2) as int, (y - oy2) as int, iw as int, ih as int);
            }
            inner.pixels[(y - oy2) * iw + (x - ox2)]
        } else {
            background
        };
        pixels.push(value);
        i = i + 1;
    }
    assert(pixels@ =~= spec_view);
    Raster { width: cw, height: ch, pixels }
}

} // verus!
