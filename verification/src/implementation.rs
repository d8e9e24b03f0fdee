//! Flattening the channel values of an image into a tensor.

use crate::markers::Layout;
use vstd::prelude::*;

verus! {

/// Whether `out` holds the values of an image of `w` by `h` pixels in the
/// layout `L`: it has a place for every channel of every pixel, and at the
/// place that `L` gives to channel `c` of pixel `(x, y)` stands the value
/// that `values` holds for it. `values` goes pixel by pixel, row after row,
/// with the three channels of a pixel side by side.
pub open spec fn laid_out<L: Layout, T>(w: nat, h: nat, values: Seq<T>, out: Seq<T>) -> bool {
    &&& out.len() == w * h * 3
    &&& forall|x: nat, y: nat, c: nat|
        x < w && y < h && c < 3 ==> out[#[trigger] L::spec_index(w, h, x, y, c) as int]
            == values[((y * w + x) * 3 + c) as int]
}

/// Whether the channels of the first `done` pixels, counted row after row,
/// are in place.
spec fn placed<L: Layout, T>(w: nat, h: nat, values: Seq<T>, out: Seq<T>, done: nat) -> bool {
    forall|x: nat, y: nat, c: nat|
        x < w && y < h && c < 3 && y * w + x < done ==> out[#[trigger] L::spec_index(
            w,
            h,
            x,
            y,
            c,
        ) as int] == values[((y * w + x) * 3 + c) as int]
}

/// Flattens the channel values of an image of `w` by `h` pixels into a
/// tensor in the layout `L`. `values` holds the values pixel by pixel, row
/// after row, the three channels of a pixel side by side.
pub fn to_layout<L: Layout, T: Copy>(w: usize, h: usize, values: &[T]) -> (out: Vec<T>)
    requires
        values@.len() == w * h * 3,
    ensures
        laid_out::<L, T>(w as nat, h as nat, values@, out@),
{
    let n = values.len();
    let mut out: Vec<T> = Vec::new();
    let mut i: usize = 0;
    while i < n
        invariant
            i <= n,
            n == values@.len(),
            out@.len() == i,
        decreases n - i,
    {
        out.push(values[i]);
        i += 1;
    }
    let mut y: usize = 0;
    while y < h
        invariant
            y <= h,
            n == values@.len(),
            n == w * h * 3,
            out@.len() == n,
            placed::<L, T>(w as nat, h as nat, values@, out@, (y * w) as nat),
        decreases h - y,
    {
        let mut x: usize = 0;
        while x < w
            invariant
                x <= w,
                y < h,
                n == values@.len(),
                n == w * h * 3,
                out@.len() == n,
                placed::<L, T>(w as nat, h as nat, values@, out@, (y * w + x) as nat),
            decreases w - x,
        {
            proof {
                crate::markers::lemma_pixel_in_image(w as nat, h as nat, x as nat, y as nat);
                assert((y * w + x) * 3 + 3 <= w * h * 3) by (nonlinear_arith)
                    requires
                        y * w + x < w * h,
                ;
            }
            let base = (y * w + x) * 3;
            let mut c: usize = 0;
            while c < 3
                invariant
                    c <= 3,
                    x < w,
                    y < h,
                    base == (y * w + x) * 3,
                    base + 3 <= n,
                    n == values@.len(),
                    n == w * h * 3,
                    out@.len() == n,
                    placed::<L, T>(w as nat, h as nat, values@, out@, (y * w + x) as nat),
                    forall|c2: nat|
                        c2 < c ==> out@[#[trigger] L::spec_index(
                            w as nat,
                            h as nat,
                            x as nat,
                            y as nat,
                            c2,
                        ) as int] == values@[base + c2],
                decreases 3 - c,
            {
                let idx = L::index(w, h, x, y, c);
                let ghost before = out@;
                proof {
                    L::lemma_index(w as nat, h as nat, x as nat, y as nat, c as nat, 0, 0, 0);
                }
                out[idx] = values[base + c];
                proof {
                    assert forall|x2: nat, y2: nat, c2: nat|
                        x2 < w && y2 < h && c2 < 3 && y2 * w + x2 < y * w + x implies out@[#[trigger] L::spec_index(
                        w as nat,
                        h as nat,
                        x2,
                        y2,
                        c2,
                    ) as int] == values@[((y2 * w + x2) * 3 + c2) as int] by {
                        L::lemma_index(w as nat, h as nat, x as nat, y as nat, c as nat, x2, y2, c2);
                        L::lemma_index(w as nat, h as nat, x2, y2, c2, x as nat, y as nat, c as nat);
                    }
                    assert forall|c2: nat| c2 < c + 1 implies out@[#[trigger] L::spec_index(
                        w as nat,
                        h as nat,
                        x as nat,
                        y as nat,
                        c2,
                    ) as int] == values@[base + c2] by {
                        L::lemma_index(
                            w as nat,
                            h as nat,
                            x as nat,
                            y as nat,
                            c as nat,
                            x as nat,
                            y as nat,
                            c2,
                        );
                        L::lemma_index(
                            w as nat,
                            h as nat,
                            x as nat,
                            y as nat,
                            c2,
                            x as nat,
                            y as nat,
                            c as nat,
                        );
                    }
                }
                c += 1;
            }
            proof {
                assert forall|x2: nat, y2: nat, c2: nat|
                    x2 < w && y2 < h && c2 < 3 && y2 * w + x2 < y * w + x + 1 implies out@[#[trigger] L::spec_index(
                    w as nat,
                    h as nat,
                    x2,
                    y2,
                    c2,
                ) as int] == values@[((y2 * w + x2) * 3 + c2) as int] by {
                    if y2 * w + x2 == y * w + x {
                        crate::markers::lemma_pixel_unique(
                            w as nat,
                            x as nat,
                            y as nat,
                            x2,
                            y2,
                        );
                    }
                }
            }
            x += 1;
        }
        proof {
            assert((y + 1) * w == y * w + w) by (nonlinear_arith);
        }
        y += 1;
    }
    proof {
        assert forall|x: nat, y: nat, c: nat| x < w && y < h && c < 3 implies out@[#[trigger] L::spec_index(
            w as nat,
            h as nat,
            x,
            y,
            c,
        ) as int] == values@[((y * w + x) * 3 + c) as int] by {
            crate::markers::lemma_pixel_in_image(w as nat, h as nat, x, y);
            assert(h * w == w * h) by (nonlinear_arith);
        }
    }
    out
}

} // verus!
