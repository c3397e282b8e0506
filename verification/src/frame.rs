//! The sequential frame generator: a dense grid of escape results, one per
//! pixel.
//!
//! The window size arrives in abstract units as a pair `(width, height)`;
//! the half-extent convention of this engine is `rows = width / 2` and
//! `columns = height / 2` (integer halves), and the grid spans the pixel
//! offsets `row in [-rows, rows)` by `col in [-columns, columns)`, so its
//! shape is `2 * rows` by `2 * columns`. The offset `(row, col)` lands at
//! grid index `(row + rows, col + columns)`, row-major.
//!
//! The per-pixel work — mapping the offset to the complex coordinate
//! `re + row / zoom`, `im + col / zoom` and iterating the map — is
//! floating-point work and enters as the evaluator closure. Note the axis
//! assignment the mapping preserves: the *row* offset moves along the *real*
//! axis and the first window dimension, the *column* offset along the
//! imaginary axis and the second. Visually that transposes the conventional
//! image layout; it is deliberate engine behavior, and changing it would
//! change every rendered frame.

use vstd::prelude::*;

use crate::escape::PixelResult;

verus! {

/// Largest accepted window dimension, so that every index and offset
/// computation of a grid stays far inside the machine's integer ranges.
pub const MAX_WINDOW_DIM: usize = 0x8000;

/// The half-extent convention: half the window dimension, rounded down.
pub open spec fn half_extent(dim: usize) -> int {
    dim as int / 2
}

/// A dense rectangular grid of escape results, row-major: one entry per
/// pixel, produced fresh per frame and immutable afterwards.
pub struct Frame {
    /// The rows of the grid, each row one entry per column.
    pub cells: Vec<Vec<PixelResult>>,
}

impl Frame {
    /// The grid as a sequence of rows of results.
    pub open spec fn grid(self) -> Seq<Seq<PixelResult>> {
        self.cells@.map_values(|row: Vec<PixelResult>| row@)
    }

    /// Every result of the grid fits the iteration budget.
    pub open spec fn all_valid(self, budget: u64) -> bool {
        forall|i: int, j: int|
            0 <= i < self.grid().len() && 0 <= j < self.grid()[i].len()
                ==> (#[trigger] self.grid()[i][j]).valid(budget)
    }
}

/// What [`generate_frame`] promises of a grid `g` built for the evaluator
/// `eval` and the window `(width, height)`: the shape follows the
/// half-extent convention, and the entry at index `(i, j)` is an output of
/// the evaluator on the pixel offset `(i - rows, j - columns)`.
pub open spec fn frame_generated<E: Fn(i64, i64) -> PixelResult>(
    eval: E,
    width: usize,
    height: usize,
    g: Seq<Seq<PixelResult>>,
) -> bool {
    let rows = half_extent(width);
    let columns = half_extent(height);
    &&& g.len() == 2 * rows
    &&& forall|i: int| 0 <= i < g.len() ==> (#[trigger] g[i]).len() == 2 * columns
    &&& forall|i: int, j: int|
        0 <= i < 2 * rows && 0 <= j < 2 * columns ==> call_ensures(
            eval,
            ((i - rows) as i64, (j - columns) as i64),
            #[trigger] g[i][j],
        )
}

/// Generates one frame: evaluates every pixel offset of the window's grid
/// and places the result at its grid index.
///
/// The returned grid has `2 * (width / 2)` rows of `2 * (height / 2)`
/// entries each, and the entry at `(i, j)` is an output of `eval` on the
/// offset `(i - width / 2, j - height / 2)`. The generation is sequential
/// and total: every pixel of the grid is evaluated exactly once, in
/// row-major order.
pub fn generate_frame<E: Fn(i64, i64) -> PixelResult>(width: usize, height: usize, eval: &E) -> (f:
    Frame)
    requires
        width <= MAX_WINDOW_DIM,
        height <= MAX_WINDOW_DIM,
        forall|r: i64, c: i64|
            -half_extent(width) <= r < half_extent(width) && -half_extent(height) <= c
                < half_extent(height) ==> call_requires(*eval, (r, c)),
    ensures
        frame_generated(*eval, width, height, f.grid()),
        f.grid().len() == 2 * half_extent(width),
        forall|i: int| 0 <= i < f.grid().len() ==> (#[trigger] f.grid()[i]).len() == 2
            * half_extent(height),
{
    let rows = width / 2;
    let columns = height / 2;
    let mut cells: Vec<Vec<PixelResult>> = Vec::new();
    let mut i: usize = 0;
    while i < 2 * rows
        invariant
            rows == half_extent(width),
            columns == half_extent(height),
            width <= MAX_WINDOW_DIM,
            height <= MAX_WINDOW_DIM,
            i <= 2 * rows,
            cells@.len() == i,
            forall|r: i64, c: i64|
                -(rows as int) <= r < rows as int && -(columns as int) <= c < columns as int
                    ==> call_requires(*eval, (r, c)),
            forall|i0: int| 0 <= i0 < i ==> (#[trigger] cells@[i0])@.len() == 2 * columns,
            forall|i0: int, j0: int|
                0 <= i0 < i && 0 <= j0 < 2 * columns ==> call_ensures(
                    *eval,
                    ((i0 - rows) as i64, (j0 - columns) as i64),
                    #[trigger] cells@[i0]@[j0],
                ),
        decreases 2 * rows - i,
    {
        let mut row: Vec<PixelResult> = Vec::new();
        let mut j: usize = 0;
        while j < 2 * columns
            invariant
                rows == half_extent(width),
                columns == half_extent(height),
                width <= MAX_WINDOW_DIM,
                height <= MAX_WINDOW_DIM,
                i < 2 * rows,
                j <= 2 * columns,
                row@.len() == j,
                forall|r: i64, c: i64|
                    -(rows as int) <= r < rows as int && -(columns as int) <= c < columns as int
                        ==> call_requires(*eval, (r, c)),
                forall|j0: int|
                    0 <= j0 < j ==> call_ensures(
                        *eval,
                        ((i - rows) as i64, (j0 - columns) as i64),
                        #[trigger] row@[j0],
                    ),
            decreases 2 * columns - j,
        {
            let row_offset: i64 = i as i64 - rows as i64;
            let col_offset: i64 = j as i64 - columns as i64;
            let value = eval(row_offset, col_offset);
            row.push(value);
            j += 1;
        }
        cells.push(row);
        i += 1;
    }
    let f = Frame { cells };
    proof {
        assert(forall|i0: int|
            0 <= i0 < f.grid().len() ==> #[trigger] f.grid()[i0] == f.cells@[i0]@);
    }
    f
}

/// A generated frame inherits the evaluator's validity: when every output of
/// the evaluator fits the iteration budget, so does every result of the
/// grid.
pub proof fn lemma_generated_frame_valid<E: Fn(i64, i64) -> PixelResult>(
    eval: E,
    width: usize,
    height: usize,
    f: Frame,
    budget: u64,
)
    requires
        frame_generated(eval, width, height, f.grid()),
        forall|a: (i64, i64), o: PixelResult| call_ensures(eval, a, o) ==> o.valid(budget),
    ensures
        f.all_valid(budget),
{
    let rows = half_extent(width);
    let columns = half_extent(height);
    assert forall|i: int, j: int|
        0 <= i < f.grid().len() && 0 <= j < f.grid()[i].len() implies (#[trigger] f.grid()[i][j]).valid(
        budget,
    ) by {
        assert(call_ensures(eval, ((i - rows) as i64, (j - columns) as i64), f.grid()[i][j]));
    }
}

/// Frame generation is repeatable: when the evaluator is deterministic — any
/// two of its outputs for one pixel offset agree — two grids generated for
/// the same evaluator and window size are identical, entry for entry.
pub proof fn lemma_generate_frame_deterministic<E: Fn(i64, i64) -> PixelResult>(
    eval: E,
    width: usize,
    height: usize,
    g1: Seq<Seq<PixelResult>>,
    g2: Seq<Seq<PixelResult>>,
)
    requires
        frame_generated(eval, width, height, g1),
        frame_generated(eval, width, height, g2),
        forall|a: (i64, i64), o1: PixelResult, o2: PixelResult|
            call_ensures(eval, a, o1) && call_ensures(eval, a, o2) ==> o1 == o2,
    ensures
        g1 == g2,
{
    let rows = half_extent(width);
    let columns = half_extent(height);
    assert forall|i: int| 0 <= i < g1.len() implies g1[i] =~= g2[i] by {
        assert forall|j: int| 0 <= j < g1[i].len() implies g1[i][j] == g2[i][j] by {
            assert(call_ensures(eval, ((i - rows) as i64, (j - columns) as i64), g1[i][j]));
            assert(call_ensures(eval, ((i - rows) as i64, (j - columns) as i64), g2[i][j]));
        }
    }
    assert(g1 =~~= g2);
}

} // verus!
