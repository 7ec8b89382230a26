//! Binarisation: every luminance value becomes pure black or pure white.

use vstd::prelude::*;
use crate::grid::{Grid, GrayBuffer};

verus! {

/// The cutoff used for receipts. Carbon-copy ink is only a little darker
/// than the paper, so it sits well above the midpoint of the range.
pub const RECEIPT_THRESHOLD: u8 = 189;

/// The level a luminance value `v` takes under cutoff `t`.
pub open spec fn level(v: u8, t: u8) -> u8 {
    if v < t {
        0
    } else {
        255
    }
}

/// `g` with each sample replaced by its level under cutoff `t`.
pub open spec fn threshold_grid(g: Grid, t: u8) -> Grid {
    Grid { width: g.width, height: g.height, pixels: g.pixels.map_values(|v: u8| level(v, t)) }
}

/// Every sample of `g` is pure black or pure white.
pub open spec fn is_binary(g: Grid) -> bool {
    forall|i: int| 0 <= i < g.pixels.len() ==> #[trigger] g.pixels[i] == 0 || g.pixels[i] == 255
}

/// Every sample of `g` equals `v`.
pub open spec fn is_uniform(g: Grid, v: u8) -> bool {
    forall|i: int| 0 <= i < g.pixels.len() ==> #[trigger] g.pixels[i] == v
}

/// Black (0) when `value` is strictly below `threshold`, white (255) otherwise.
pub fn threshold_pixel(value: u8, threshold: u8) -> (r: u8)
    ensures
        r == level(value, threshold),
        r == 0 <==> value < threshold,
        r == 255 <==> value >= threshold,
{
    if value < threshold {
        0
    } else {
        255
    }
}

/// A new buffer of the same dimensions in which each sample is the level of
/// the corresponding sample of `buffer` under `threshold`.
pub fn apply_threshold(buffer: GrayBuffer, threshold: u8) -> (r: GrayBuffer)
    ensures
        r@ == threshold_grid(buffer@, threshold),
        r@.width == buffer@.width,
        r@.height == buffer@.height,
        r@.wf(),
        is_binary(r@),
{
    let source = buffer.as_raw();
    let n = source.len();
    let mut out: Vec<u8> = Vec::with_capacity(n);
    let mut i: usize = 0;
    while i < n
        invariant
            n == source@.len(),
            source@ == buffer@.pixels,
            i <= n,
            out@ == source@.take(i as int).map_values(|v: u8| level(v, threshold)),
        decreases n - i,
    {
        let v = threshold_pixel(source[i], threshold);
        out.push(v);
        i += 1;
        assert(out@ =~= source@.take(i as int).map_values(|v: u8| level(v, threshold)));
    }
    assert(source@.take(n as int) =~= source@);
    let r = GrayBuffer::from_raw(buffer.width(), buffer.height(), out).unwrap();
    assert(r@.pixels =~= threshold_grid(buffer@, threshold).pixels);
    proof {
        lemma_threshold_binary(buffer@, threshold);
    }
    r
}

/// The receipt binarisation: `apply_threshold` with `RECEIPT_THRESHOLD`.
pub fn binarize(buffer: GrayBuffer) -> (r: GrayBuffer)
    ensures
        r@ == threshold_grid(buffer@, RECEIPT_THRESHOLD),
        r@.width == buffer@.width,
        r@.height == buffer@.height,
        r@.wf(),
        is_binary(r@),
{
    apply_threshold(buffer, RECEIPT_THRESHOLD)
}

/// Thresholding keeps the dimensions and leaves only black and white.
pub proof fn lemma_threshold_binary(g: Grid, t: u8)
    ensures
        threshold_grid(g, t).width == g.width,
        threshold_grid(g, t).height == g.height,
        threshold_grid(g, t).pixels.len() == g.pixels.len(),
        g.wf() ==> threshold_grid(g, t).wf(),
        is_binary(threshold_grid(g, t)),
{
}

/// Binarising an already binarised receipt changes nothing.
pub proof fn lemma_binarize_idempotent(g: Grid)
    ensures
        threshold_grid(threshold_grid(g, RECEIPT_THRESHOLD), RECEIPT_THRESHOLD)
            == threshold_grid(g, RECEIPT_THRESHOLD),
{
    let once = threshold_grid(g, RECEIPT_THRESHOLD);
    let twice = threshold_grid(once, RECEIPT_THRESHOLD);
    assert(twice.pixels =~= once.pixels);
}

/// An all-white receipt stays all white and an all-black one stays all black.
pub proof fn lemma_binarize_uniform(g: Grid)
    ensures
        is_uniform(g, 255) ==> is_uniform(threshold_grid(g, RECEIPT_THRESHOLD), 255),
        is_uniform(g, 0) ==> is_uniform(threshold_grid(g, RECEIPT_THRESHOLD), 0),
{
}

} // verus!
