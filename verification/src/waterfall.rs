//! The scrolling spectrogram history and its pixel snapshot.
//!
//! The buffer is a fixed grid: one row per spectral frame (rows are time,
//! newest rows enter at one edge and the oldest row leaves at the other),
//! one column per frequency bin. A frame that is narrower or wider than the
//! grid is zero-padded or cut — defensive only, the analyzer always emits the
//! configured width. The snapshot for the graphics backend maps every cell
//! linearly to an 8-bit intensity.

use vstd::arithmetic::div_mod::lemma_fundamental_div_mod_converse;
use vstd::prelude::*;
use crate::MAGNITUDE_ONE;
use crate::frame::SpectralFrame;
use crate::frame::fitted;

verus! {

/// Where new rows enter the grid. `Downward`: new rows enter at the top and
/// the history slides down; `Upward`: new rows enter at the bottom and the
/// history slides up. A presentation choice only — it never affects analysis.
#[derive(Clone, Copy, Debug, PartialEq, Eq, Structural)]
pub enum ScrollDirection {
    Downward,
    Upward,
}

/// Which half of the mirrored magnitude spectrum a presented column reads:
/// `Normal` keeps the stored bin order, `Mirrored` flips the frequency axis.
/// A presentation choice only.
#[derive(Clone, Copy, Debug, PartialEq, Eq, Structural)]
pub enum BinSelection {
    Normal,
    Mirrored,
}

/// The render-time toggles, mutable at any time via input and read on the
/// next frame; an explicit value handed to the buffer, never ambient state.
#[derive(Clone, Copy, Debug, PartialEq, Eq, Structural)]
pub struct RenderOptions {
    pub bin_selection: BinSelection,
    pub scroll_direction: ScrollDirection,
}

impl RenderOptions {
    /// The startup configuration: stored bin order, history sliding down.
    pub fn new() -> (o: RenderOptions)
        ensures
            o.bin_selection == BinSelection::Normal,
            o.scroll_direction == ScrollDirection::Downward,
    {
        RenderOptions { bin_selection: BinSelection::Normal, scroll_direction: ScrollDirection::Downward }
    }
}

/// One inserted row: the new row enters at the edge that `dir` names and the
/// oldest row at the opposite edge is evicted.
pub open spec fn push_model(grid: Seq<Seq<u32>>, row: Seq<u32>, dir: ScrollDirection) -> Seq<
    Seq<u32>,
> {
    match dir {
        ScrollDirection::Downward => seq![row] + grid.drop_last(),
        ScrollDirection::Upward => grid.drop_first().push(row),
    }
}

/// The grid after pushing every frame of `frames` in order, each fitted to
/// `width` columns.
pub open spec fn push_all(
    grid: Seq<Seq<u32>>,
    frames: Seq<Seq<u32>>,
    width: nat,
    dir: ScrollDirection,
) -> Seq<Seq<u32>>
    decreases frames.len(),
{
    if frames.len() == 0 {
        grid
    } else {
        push_all(push_model(grid, fitted(frames[0], width), dir), frames.drop_first(), width, dir)
    }
}

/// The linear map from a bin magnitude to an 8-bit intensity: full scale at
/// `MAGNITUDE_ONE` and above, proportional below it.
pub open spec fn intensity(v: u32) -> u8 {
    if v >= MAGNITUDE_ONE {
        255u8
    } else {
        ((v * 255) / (MAGNITUDE_ONE as int)) as u8
    }
}

/// The stored column a presented column reads from.
pub open spec fn source_column(c: int, width: int, sel: BinSelection) -> int {
    match sel {
        BinSelection::Normal => c,
        BinSelection::Mirrored => width - 1 - c,
    }
}

/// The scrolling 2-D history of spectral frames: rows are time, columns are
/// frequency bins. Created once, mutated for the process lifetime; always
/// exactly `depth` rows of exactly `width` cells.
pub struct WaterfallBuffer {
    rows: Vec<Vec<u32>>,
    width: usize,
}

impl WaterfallBuffer {
    /// The grid contents, row by row.
    pub closed spec fn grid(&self) -> Seq<Seq<u32>> {
        self.rows@.map_values(|r: Vec<u32>| r@)
    }

    /// Number of columns (frequency bins) per row.
    pub closed spec fn width_spec(&self) -> int {
        self.width as int
    }

    /// Number of rows (history depth).
    pub open spec fn depth(&self) -> int {
        self.grid().len() as int
    }

    /// Validity: at least one row, every row of the fixed width, and a pixel
    /// count that fits the platform.
    pub closed spec fn wf(&self) -> bool {
        &&& self.rows@.len() >= 1
        &&& forall|i: int|
            0 <= i < self.rows@.len() ==> (#[trigger] self.rows@[i])@.len() == self.width
        &&& self.rows@.len() * self.width <= usize::MAX
    }

    /// An all-zero grid of `depth` rows by `width` columns.
    pub fn new(depth: usize, width: usize) -> (b: WaterfallBuffer)
        requires
            depth >= 1,
            depth * width <= usize::MAX,
        ensures
            b.wf(),
            b.depth() == depth,
            b.width_spec() == width,
            forall|r: int, c: int|
                0 <= r < depth && 0 <= c < width ==> #[trigger] b.grid()[r][c] == 0,
    {
        let mut rows: Vec<Vec<u32>> = Vec::new();
        let mut r: usize = 0;
        while r < depth
            invariant
                r <= depth,
                rows@.len() == r,
                forall|i: int| 0 <= i < r ==> (#[trigger] rows@[i])@ =~= Seq::new(width as nat, |j: int| 0u32),
            decreases depth - r,
        {
            let mut row: Vec<u32> = Vec::new();
            let mut c: usize = 0;
            while c < width
                invariant
                    c <= width,
                    row@ =~= Seq::new(c as nat, |j: int| 0u32),
                decreases width - c,
            {
                row.push(0u32);
                c = c + 1;
            }
            rows.push(row);
            r = r + 1;
        }
        let b = WaterfallBuffer { rows, width };
        proof {
            assert(depth * width <= usize::MAX);
            assert forall|rr: int, cc: int| 0 <= rr < depth && 0 <= cc < width implies #[trigger] b.grid()[rr][cc]
                == 0 by {
                assert(b.grid()[rr] == b.rows@[rr]@);
            }
        }
        b
    }

    /// Inserts `frame` as the newest row at the edge `direction` names,
    /// evicting the oldest row at the opposite edge; the frame is cut or
    /// zero-padded to the grid width, so a wrong-width frame is tolerated.
    pub fn push_row(&mut self, frame: SpectralFrame, direction: ScrollDirection)
        requires
            old(self).wf(),
        ensures
            final(self).wf(),
            final(self).width_spec() == old(self).width_spec(),
            final(self).depth() == old(self).depth(),
            final(self).grid() == push_model(
                old(self).grid(),
                fitted(frame@, old(self).width_spec() as nat),
                direction,
            ),
    {
        let mut row: Vec<u32> = Vec::new();
        let mut c: usize = 0;
        let n = frame.len();
        while c < self.width
            invariant
                c <= self.width,
                n == frame@.len(),
                row@.len() == c,
                forall|j: int|
                    0 <= j < c ==> row@[j] == fitted(frame@, self.width as nat)[j],
            decreases self.width - c,
        {
            let v: u32 = if c < n {
                frame.bin(c)
            } else {
                0u32
            };
            row.push(v);
            c = c + 1;
        }
        proof {
            assert(row@ =~= fitted(frame@, self.width as nat));
        }
        let ghost pre = self.rows@;
        match direction {
            ScrollDirection::Downward => {
                self.rows.pop();
                self.rows.insert(0, row);
                proof {
                    assert(self.grid() =~= push_model(
                        pre.map_values(|r: Vec<u32>| r@),
                        fitted(frame@, self.width as nat),
                        direction,
                    ));
                }
            },
            ScrollDirection::Upward => {
                self.rows.remove(0);
                self.rows.push(row);
                proof {
                    assert(self.grid() =~= push_model(
                        pre.map_values(|r: Vec<u32>| r@),
                        fitted(frame@, self.width as nat),
                        direction,
                    ));
                }
            },
        }
    }

    /// The snapshot the graphics backend uploads as a texture: row-major
    /// 8-bit intensities, one per cell, each cell mapped linearly; the
    /// presented column order follows the bin selection toggle.
    pub fn render_view(&self, options: &RenderOptions) -> (pixels: Vec<u8>)
        requires
            self.wf(),
        ensures
            pixels@.len() == self.depth() * self.width_spec(),
            forall|i: int|
                0 <= i < pixels@.len() ==> #[trigger] pixels@[i] == intensity(
                    self.grid()[i / self.width_spec()][source_column(
                        i % self.width_spec(),
                        self.width_spec(),
                        options.bin_selection,
                    )],
                ),
    {
        let depth = self.rows.len();
        let width = self.width;
        let mut pixels: Vec<u8> = Vec::new();
        let mut r: usize = 0;
        while r < depth
            invariant
                self.wf(),
                depth == self.depth(),
                width == self.width_spec(),
                r <= depth,
                pixels@.len() == r * width,
                r * width <= depth * width,
                forall|i: int|
                    0 <= i < pixels@.len() ==> #[trigger] pixels@[i] == intensity(
                        self.grid()[i / self.width_spec()][source_column(
                            i % self.width_spec(),
                            self.width_spec(),
                            options.bin_selection,
                        )],
                    ),
            decreases depth - r,
        {
            let mut c: usize = 0;
            while c < width
                invariant
                    self.wf(),
                    depth == self.depth(),
                    width == self.width_spec(),
                    r < depth,
                    c <= width,
                    pixels@.len() == r * width + c,
                    r * width + c <= depth * width,
                    forall|i: int|
                        0 <= i < pixels@.len() ==> #[trigger] pixels@[i] == intensity(
                            self.grid()[i / self.width_spec()][source_column(
                                i % self.width_spec(),
                                self.width_spec(),
                                options.bin_selection,
                            )],
                        ),
                decreases width - c,
            {
                let c_src: usize = match options.bin_selection {
                    BinSelection::Normal => c,
                    BinSelection::Mirrored => width - 1 - c,
                };
                proof {
                    assert(self.grid()[r as int] == self.rows@[r as int]@);
                }
                let v: u32 = self.rows[r][c_src];
                let p: u8 = if v >= MAGNITUDE_ONE {
                    255u8
                } else {
                    ((v as u64 * 255u64) / (MAGNITUDE_ONE as u64)) as u8
                };
                proof {
                    assert(p == intensity(v));
                    lemma_fundamental_div_mod_converse(
                        r * width + c,
                        width as int,
                        r as int,
                        c as int,
                    );
                    assert((r * width + c + 1) <= depth * width) by (nonlinear_arith)
                        requires
                            0 <= r < depth,
                            0 <= c < width,
                    ;
                }
                pixels.push(p);
                c = c + 1;
            }
            proof {
                assert(r * width + width == (r + 1) * width) by (nonlinear_arith);
            }
            r = r + 1;
        }
        pixels
    }
}

/// Where every cell stands after pushing `frames`: rows that `frames` has not
/// yet overwritten keep sliding from `grid`, the rest hold the pushed frames
/// with the newest at the entry edge.
pub open spec fn shape_cell(
    grid: Seq<Seq<u32>>,
    frames: Seq<Seq<u32>>,
    width: nat,
    dir: ScrollDirection,
    i: int,
) -> Seq<u32> {
    match dir {
        ScrollDirection::Downward => if i < frames.len() {
            fitted(frames[frames.len() - 1 - i], width)
        } else {
            grid[i - frames.len()]
        },
        ScrollDirection::Upward => if i < grid.len() - frames.len() {
            grid[i + frames.len()]
        } else {
            fitted(frames[i - grid.len() + frames.len()], width)
        },
    }
}

/// Pushing keeps the depth, and each row ends where `shape_cell` says.
pub proof fn lemma_push_all_shape(
    grid: Seq<Seq<u32>>,
    frames: Seq<Seq<u32>>,
    width: nat,
    dir: ScrollDirection,
)
    requires
        grid.len() >= 1,
    ensures
        push_all(grid, frames, width, dir).len() == grid.len(),
        forall|i: int|
            0 <= i < grid.len() ==> #[trigger] push_all(grid, frames, width, dir)[i] == shape_cell(
                grid,
                frames,
                width,
                dir,
                i,
            ),
    decreases frames.len(),
{
    if frames.len() == 0 {
    } else {
        let g1 = push_model(grid, fitted(frames[0], width), dir);
        assert(g1.len() == grid.len());
        lemma_push_all_shape(g1, frames.drop_first(), width, dir);
    }
}

/// After `k >= depth` pushes with one scroll direction, the grid holds
/// exactly the most recent `depth` pushed frames, each fitted to the grid
/// width, ordered by that direction: newest at the entry edge.
pub proof fn lemma_waterfall_history(
    grid: Seq<Seq<u32>>,
    frames: Seq<Seq<u32>>,
    width: nat,
    dir: ScrollDirection,
)
    requires
        grid.len() >= 1,
        frames.len() >= grid.len(),
    ensures
        push_all(grid, frames, width, dir).len() == grid.len(),
        dir == ScrollDirection::Upward ==> forall|i: int|
            0 <= i < grid.len() ==> #[trigger] push_all(grid, frames, width, dir)[i] == fitted(
                frames[frames.len() - grid.len() + i],
                width,
            ),
        dir == ScrollDirection::Downward ==> forall|i: int|
            0 <= i < grid.len() ==> #[trigger] push_all(grid, frames, width, dir)[i] == fitted(
                frames[frames.len() - 1 - i],
                width,
            ),
{
    lemma_push_all_shape(grid, frames, width, dir);
}

} // verus!
