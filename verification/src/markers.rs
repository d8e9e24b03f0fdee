//! Markers for the normalization, the element type and the layout of a
//! flattened image.

use vstd::prelude::*;

verus! {

/// No normalization: channel values stay as they are.
pub struct NoNorm;

/// Normalization with the ImageNet mean and standard deviation.
pub struct ImageNet;

// --- Data type markers ---
#[derive(Copy, Clone, Debug)]
pub struct F32;

#[derive(Copy, Clone, Debug)]
pub struct F16;

#[derive(Copy, Clone, Debug)]
pub struct BF16;

#[derive(Copy, Clone, Debug)]
pub struct I8;

#[derive(Copy, Clone, Debug)]
pub struct U8;

impl I8 {
    /// The element that stands for a value once it was divided by the scale
    /// and rounded to `rounded`: the zero point is added, and the sum is cut
    /// to the range of the element type.
    pub open spec fn quantized(rounded: i32, zero_point: i32) -> int {
        let sum = rounded + zero_point;
        if sum < i8::MIN {
            i8::MIN as int
        } else if sum > i8::MAX {
            i8::MAX as int
        } else {
            sum
        }
    }

    /// Adds the zero point to a scaled and rounded value and cuts the sum to
    /// the range of the element type.
    pub fn quantize(rounded: i32, zero_point: i32) -> (q: i8)
        ensures
            q == Self::quantized(rounded, zero_point),
    {
        let sum: i64 = rounded as i64 + zero_point as i64;
        if sum < i8::MIN as i64 {
            i8::MIN
        } else if sum > i8::MAX as i64 {
            i8::MAX
        } else {
            sum as i8
        }
    }
}

// --- Layout markers ---
/// Where the channel `c` of the pixel `(x, y)` of an image of `w` by `h`
/// pixels lies in a flat buffer.
pub trait Layout {
    const CHANNELS: usize = 3;

    /// The position of channel `c` of pixel `(x, y)`.
    spec fn spec_index(w: nat, h: nat, x: nat, y: nat, c: nat) -> nat;

    /// Every channel of every pixel has a position of its own within the
    /// buffer.
    proof fn lemma_index(w: nat, h: nat, x: nat, y: nat, c: nat, x2: nat, y2: nat, c2: nat)
        requires
            x < w,
            y < h,
            c < 3,
            x2 < w,
            y2 < h,
            c2 < 3,
        ensures
            Self::spec_index(w, h, x, y, c) < w * h * 3,
            Self::spec_index(w, h, x, y, c) == Self::spec_index(w, h, x2, y2, c2) ==> x == x2 && y
                == y2 && c == c2,
    ;

    /// Given (x,y,c) and width/height, return flat index for the *staging
    /// buffer*
    fn index(w: usize, h: usize, x: usize, y: usize, c: usize) -> (i: usize)
        requires
            x < w,
            y < h,
            c < 3,
            w * h * 3 <= usize::MAX,
        ensures
            i == Self::spec_index(w as nat, h as nat, x as nat, y as nat, c as nat),
    ;
}

/// Pixel by pixel, row after row, the channels of one pixel side by side.
pub struct NHWC;

/// Channel by channel, each channel a plane of rows.
pub struct NCHW;

/// A pixel of an image lies within its rows: `y * w + x` is below `w * h`.
pub proof fn lemma_pixel_in_image(w: nat, h: nat, x: nat, y: nat)
    requires
        x < w,
        y < h,
    ensures
        y * w + x < w * h,
        y * w == w * y,
{
    assert(y * w + x < w * h) by (nonlinear_arith)
        requires
            x < w,
            y < h,
    ;
    assert(y * w == w * y) by (nonlinear_arith);
}

/// Two pixels at the same offset `y * w + x` are the same pixel.
pub proof fn lemma_pixel_unique(w: nat, x: nat, y: nat, x2: nat, y2: nat)
    requires
        x < w,
        x2 < w,
        y * w + x == y2 * w + x2,
    ensures
        x == x2,
        y == y2,
{
    assert(y == y2) by (nonlinear_arith)
        requires
            x < w,
            x2 < w,
            y * w + x == y2 * w + x2,
    ;
}

impl Layout for NHWC {
    open spec fn spec_index(w: nat, h: nat, x: nat, y: nat, c: nat) -> nat {
        (y * w + x) * 3 + c
    }

    proof fn lemma_index(w: nat, h: nat, x: nat, y: nat, c: nat, x2: nat, y2: nat, c2: nat) {
        lemma_pixel_in_image(w, h, x, y);
        assert((y * w + x) * 3 + c < w * h * 3) by (nonlinear_arith)
            requires
                y * w + x < w * h,
                c < 3,
        ;
        if (y * w + x) * 3 + c == (y2 * w + x2) * 3 + c2 {
            lemma_pixel_unique(w, x, y, x2, y2);
        }
    }

    #[inline]
    fn index(w: usize, _h: usize, x: usize, y: usize, c: usize) -> (i: usize) {
        proof {
            lemma_pixel_in_image(w as nat, _h as nat, x as nat, y as nat);
            assert(y * w <= y * w + x);
            assert((y * w + x) * 3 + c < w * _h * 3) by (nonlinear_arith)
                requires
                    y * w + x < w * _h,
                    c < 3,
            ;
        }
        (y * w + x) * 3 + c
    }
}

impl Layout for NCHW {
    open spec fn spec_index(w: nat, h: nat, x: nat, y: nat, c: nat) -> nat {
        c * (w * h) + y * w + x
    }

    proof fn lemma_index(w: nat, h: nat, x: nat, y: nat, c: nat, x2: nat, y2: nat, c2: nat) {
        lemma_pixel_in_image(w, h, x, y);
        lemma_pixel_in_image(w, h, x2, y2);
        let plane = w * h;
        let p = y * w + x;
        let p2 = y2 * w + x2;
        assert(c * plane + p < plane * 3) by (nonlinear_arith)
            requires
                p < plane,
                c < 3,
        ;
        assert(w * h * 3 == plane * 3);
        if c * plane + p == c2 * plane + p2 {
            assert(c == c2) by (nonlinear_arith)
                requires
                    p < plane,
                    p2 < plane,
                    c * plane + p == c2 * plane + p2,
            ;
            lemma_pixel_unique(w, x, y, x2, y2);
        }
    }

    #[inline]
    fn index(w: usize, h: usize, x: usize, y: usize, c: usize) -> (i: usize) {
        proof {
            lemma_pixel_in_image(w as nat, h as nat, x as nat, y as nat);
            let plane = (w * h) as nat;
            let p = (y * w + x) as nat;
            assert(c * plane + p < plane * 3) by (nonlinear_arith)
                requires
                    p < plane,
                    c < 3,
            ;
            assert(plane <= plane * 3);
            assert(c * plane <= c * plane + p);
            assert(y * w <= p);
        }
        c * (w * h) + y * w + x
    }
}

/// Which normalization goes with which element type.
pub trait Compatible<N, D> {

}

impl Compatible<NoNorm, U8> for () {

}

impl Compatible<NoNorm, F32> for () {

}

impl Compatible<ImageNet, F32> for () {

}

impl Compatible<ImageNet, F16> for () {

}

impl Compatible<ImageNet, BF16> for () {

}

impl Compatible<ImageNet, I8> for () {

}

} // verus!
