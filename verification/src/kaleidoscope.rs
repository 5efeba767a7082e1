//! The symmetric remap behind the kaleidoscope presentation path.
//!
//! The kaleidoscope mode does not change analysis or history: it presents the
//! same waterfall snapshot with every quadrant mirroring the top-left one.
//! The remap works on the flat row-major pixel grid that
//! [`crate::waterfall::WaterfallBuffer::render_view`] produces.

use vstd::arithmetic::div_mod::lemma_fundamental_div_mod_converse;
use vstd::prelude::*;

verus! {

/// The source cell a presented cell reads: its row and column, each folded
/// onto the nearer edge's mirror image.
pub open spec fn mirrored_cell(pixels: Seq<u8>, rows: int, cols: int, i: int) -> u8 {
    let r = i / cols;
    let c = i % cols;
    let sr = if r <= rows - 1 - r {
        r
    } else {
        rows - 1 - r
    };
    let sc = if c <= cols - 1 - c {
        c
    } else {
        cols - 1 - c
    };
    pixels[sr * cols + sc]
}

/// Produces the four-way mirrored snapshot: cell `(r, c)` of the result shows
/// cell `(min(r, rows-1-r), min(c, cols-1-c))` of the input grid.
pub fn symmetric_remap(pixels: &Vec<u8>, rows: usize, cols: usize) -> (out: Vec<u8>)
    requires
        rows >= 1,
        cols >= 1,
        pixels@.len() == rows * cols,
    ensures
        out@.len() == pixels@.len(),
        forall|i: int|
            0 <= i < out@.len() ==> #[trigger] out@[i] == mirrored_cell(
                pixels@,
                rows as int,
                cols as int,
                i,
            ),
{
    // The grid fits the platform: its cell count is a vector length.
    let total: usize = pixels.len();
    let mut out: Vec<u8> = Vec::new();
    let mut r: usize = 0;
    while r < rows
        invariant
            rows >= 1,
            cols >= 1,
            pixels@.len() == rows * cols,
            total == rows * cols,
            r <= rows,
            out@.len() == r * cols,
            r * cols <= rows * cols,
            forall|i: int|
                0 <= i < out@.len() ==> #[trigger] out@[i] == mirrored_cell(
                    pixels@,
                    rows as int,
                    cols as int,
                    i,
                ),
        decreases rows - r,
    {
        let mut c: usize = 0;
        while c < cols
            invariant
                rows >= 1,
                cols >= 1,
                pixels@.len() == rows * cols,
                total == rows * cols,
                r < rows,
                c <= cols,
                out@.len() == r * cols + c,
                r * cols + c <= rows * cols,
                forall|i: int|
                    0 <= i < out@.len() ==> #[trigger] out@[i] == mirrored_cell(
                        pixels@,
                        rows as int,
                        cols as int,
                        i,
                    ),
            decreases cols - c,
        {
            let sr: usize = if r <= rows - 1 - r {
                r
            } else {
                rows - 1 - r
            };
            let sc: usize = if c <= cols - 1 - c {
                c
            } else {
                cols - 1 - c
            };
            proof {
                assert(sr * cols + sc < rows * cols) by (nonlinear_arith)
                    requires
                        0 <= sr < rows,
                        0 <= sc < cols,
                ;
                assert((r * cols + c + 1) <= rows * cols) by (nonlinear_arith)
                    requires
                        0 <= r < rows,
                        0 <= c < cols,
                ;
                lemma_fundamental_div_mod_converse(
                    r * cols + c,
                    cols as int,
                    r as int,
                    c as int,
                );
            }
            let v = pixels[sr * cols + sc];
            out.push(v);
            c = c + 1;
        }
        proof {
            assert(r * cols + cols == (r + 1) * cols) by (nonlinear_arith);
        }
        r = r + 1;
    }
    out
}

} // verus!
