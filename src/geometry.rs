//! Aspect-preserving scale-to-fit and integer centering.
use vstd::arithmetic::div_mod::lemma_fundamental_div_mod;
use vstd::prelude::*;

verus! {

/// `n / d` rounded to the nearest integer, halves rounding up.
pub open spec fn round_div(n: int, d: int) -> int {
    (2 * n + d) / (2 * d)
}

/// The scale factor, as a fraction `(numerator, denominator)`, that fits a
/// `sw × sh` source inside a `tw × th` box: the smaller of the two axis ratios
/// `tw / sw` and `th / sh`.
pub open spec fn fit_ratio(sw: int, sh: int, tw: int, th: int) -> (int, int) {
    if tw * sh <= th * sw {
        (tw, sw)
    } else {
        (th, sh)
    }
}

/// The source's dimensions once scaled by `fit_ratio` and rounded to whole
/// pixels. An empty source scales to nothing.
pub open spec fn scaled_size(sw: int, sh: int, tw: int, th: int) -> (int, int) {
    if sw == 0 || sh == 0 {
        (0, 0)
    } else {
        let (n, d) = fit_ratio(sw, sh, tw, th);
        (round_div(sw * n, d), round_div(sh * n, d))
    }
}

/// Offset that centers `inner` pixels within `target`; an odd leftover pixel
/// goes to the trailing edge.
pub open spec fn centered(target: int, inner: int) -> int {
    (target - inner) / 2
}

/// Where a scaled source image lands on the target canvas.
#[derive(Clone, Copy, Debug, PartialEq, Eq, Structural)]
pub struct Placement {
    pub width: u32,
    pub height: u32,
    pub offset_x: u32,
    pub offset_y: u32,
}

impl Placement {
    /// The placement of a `sw × sh` source on a `tw × th` canvas.
    pub open spec fn of(sw: int, sh: int, tw: int, th: int) -> Placement {
        let (w, h) = scaled_size(sw, sh, tw, th);
        Placement {
            width: w as u32,
            height: h as u32,
            offset_x: centered(tw, w) as u32,
            offset_y: centered(th, h) as u32,
        }
    }
}

proof fn lemma_div_at_most(x: int, d: int, q: int)
    requires
        d > 0,
        0 <= x,
        x < d * (q + 1),
    ensures
        x / d <= q,
        0 <= x / d,
{
    lemma_fundamental_div_mod(x, d);
    let a = x / d;
    assert(0 <= a <= q) by (nonlinear_arith)
        requires
            d > 0,
            x == d * a + x % d,
            0 <= x % d < d,
            0 <= x,
            x < d * (q + 1),
    ;
}

proof fn lemma_div_exact(x: int, d: int, q: int)
    requires
        d > 0,
        d * q <= x,
        x < d * (q + 1),
    ensures
        x / d == q,
{
    lemma_fundamental_div_mod(x, d);
    let a = x / d;
    assert(a == q) by (nonlinear_arith)
        requires
            d > 0,
            x == d * a + x % d,
            0 <= x % d < d,
            d * q <= x,
            x < d * (q + 1),
    ;
}

/// The scaled image never exceeds the target on either axis, and the axis
/// that decides the scale is filled exactly.
pub proof fn lemma_scaled_fits(sw: int, sh: int, tw: int, th: int)
    requires
        0 <= sw,
        0 <= sh,
        0 <= tw,
        0 <= th,
    ensures
        0 <= scaled_size(sw, sh, tw, th).0 <= tw,
        0 <= scaled_size(sw, sh, tw, th).1 <= th,
        sw > 0 && sh > 0 && tw * sh <= th * sw ==> scaled_size(sw, sh, tw, th).0 == tw,
        sw > 0 && sh > 0 && th * sw <= tw * sh ==> scaled_size(sw, sh, tw, th).1 == th,
{
    if sw > 0 && sh > 0 {
        if tw * sh <= th * sw {
            assert((2 * sw) * tw <= 2 * (sw * tw) + sw) by (nonlinear_arith)
                requires
                    sw > 0,
            ;
            assert(2 * (sw * tw) + sw < (2 * sw) * (tw + 1)) by (nonlinear_arith)
                requires
                    sw > 0,
            ;
            lemma_div_exact(2 * (sw * tw) + sw, 2 * sw, tw);
            assert(2 * (sh * tw) + sw < (2 * sw) * (th + 1)) by (nonlinear_arith)
                requires
                    sw > 0,
                    tw * sh <= th * sw,
            ;
            assert(0 <= 2 * (sh * tw) + sw) by (nonlinear_arith)
                requires
                    sw > 0,
                    sh > 0,
                    tw >= 0,
            ;
            lemma_div_at_most(2 * (sh * tw) + sw, 2 * sw, th);
            if th * sw <= tw * sh {
                assert(sh * tw == th * sw) by (nonlinear_arith)
                    requires
                        tw * sh <= th * sw,
                        th * sw <= tw * sh,
                ;
                assert(2 * (sh * tw) + sw == 2 * (sw * th) + sw) by (nonlinear_arith)
                    requires
                        sh * tw == th * sw,
                ;
                assert(2 * (sw * th) + sw < (2 * sw) * (th + 1)) by (nonlinear_arith)
                    requires
                        sw > 0,
                ;
                assert((2 * sw) * th <= 2 * (sw * th) + sw) by (nonlinear_arith)
                    requires
                        sw > 0,
                ;
                lemma_div_exact(2 * (sh * tw) + sw, 2 * sw, th);
            }
        } else {
            assert(2 * (sh * th) + sh < (2 * sh) * (th + 1)) by (nonlinear_arith)
                requires
                    sh > 0,
            ;
            assert((2 * sh) * th <= 2 * (sh * th) + sh) by (nonlinear_arith)
                requires
                    sh > 0,
            ;
            lemma_div_exact(2 * (sh * th) + sh, 2 * sh, th);
            assert(2 * (sw * th) + sh < (2 * sh) * (tw + 1)) by (nonlinear_arith)
                requires
                    sh > 0,
                    th * sw < tw * sh,
            ;
            assert(0 <= 2 * (sw * th) + sh) by (nonlinear_arith)
                requires
                    sw > 0,
                    sh > 0,
                    th >= 0,
            ;
            lemma_div_at_most(2 * (sw * th) + sh, 2 * sh, tw);
        }
    }
}

/// Centering leaves the leftover split evenly, with any odd pixel on the
/// trailing edge: twice the offset plus the inner size is the target or one
/// less.
pub proof fn lemma_centering(target: int, inner: int)
    requires
        0 <= inner <= target,
    ensures
        2 * centered(target, inner) + inner == target || 2 * centered(target, inner) + inner
            == target - 1,
        0 <= centered(target, inner),
        centered(target, inner) + inner <= target,
{
}

/// The placement of any source on a canvas with positive sides stays on the
/// canvas: the scaled image fits on both axes, and each offset centers it
/// with the odd leftover pixel, if any, on the trailing edge.
pub proof fn lemma_placement_on_canvas(sw: u32, sh: u32, tw: u32, th: u32)
    requires
        tw > 0,
        th > 0,
    ensures
        ({
            let p = Placement::of(sw as int, sh as int, tw as int, th as int);
            &&& p.width <= tw
            &&& p.height <= th
            &&& 2 * p.offset_x + p.width == tw || 2 * p.offset_x + p.width == tw - 1
            &&& 2 * p.offset_y + p.height == th || 2 * p.offset_y + p.height == th - 1
        }),
{
    lemma_scaled_fits(sw as int, sh as int, tw as int, th as int);
    let (w, h) = scaled_size(sw as int, sh as int, tw as int, th as int);
    lemma_centering(tw as int, w);
    lemma_centering(th as int, h);
}

/// Computes where a `sw × sh` source is drawn on a `tw × th` canvas.
pub fn place(sw: u32, sh: u32, tw: u32, th: u32) -> (p: Placement)
    ensures
        p == Placement::of(sw as int, sh as int, tw as int, th as int),
        p.width <= tw,
        p.height <= th,
        p.offset_x + p.width <= tw,
        p.offset_y + p.height <= th,
{
    proof {
        lemma_scaled_fits(sw as int, sh as int, tw as int, th as int);
    }
    if sw == 0 || sh == 0 {
        return Placement { width: 0, height: 0, offset_x: tw / 2, offset_y: th / 2 };
    }
    let sw2 = sw as u128;
    let sh2 = sh as u128;
    let tw2 = tw as u128;
    let th2 = th as u128;
    proof {
        lemma_product_bound(tw as int, sh as int);
        lemma_product_bound(th as int, sw as int);
        lemma_product_bound(sw as int, tw as int);
        lemma_product_bound(sh as int, tw as int);
        lemma_product_bound(sw as int, th as int);
        lemma_product_bound(sh as int, th as int);
    }
    let (n, d): (u128, u128) = if tw2 * sh2 <= th2 * sw2 {
        (tw2, sw2)
    } else {
        (th2, sh2)
    };
    let w = (2 * (sw2 * n) + d) / (2 * d);
    let h = (2 * (sh2 * n) + d) / (2 * d);
    let w = w as u32;
    let h = h as u32;
    Placement { width: w, height: h, offset_x: (tw - w) / 2, offset_y: (th - h) / 2 }
}

proof fn lemma_product_bound(a: int, b: int)
    requires
        0 <= a <= u32::MAX,
        0 <= b <= u32::MAX,
    ensures
        0 <= a * b <= u32::MAX * u32::MAX,
{
    assert(0 <= a * b <= u32::MAX * u32::MAX) by (nonlinear_arith)
        requires
            0 <= a <= u32::MAX,
            0 <= b <= u32::MAX,
    ;
}

} // verus!
