//! The parallel frame generator: fan-out by row, fan-in over a message
//! stream, merged into a dense color grid.
//!
//! The parallel path decomposes a frame by grid row: one task per row,
//! submitted to a worker pool sized to the host's available parallelism.
//! Each task evaluates and colors its row's pixels and emits one message per
//! pixel, tagged with the pixel's absolute grid index; the orchestrator
//! performs exactly one blocking receive per pixel of the grid and writes
//! each received color at its tagged index. The pool, the channel and the
//! blocking receives are outside work and belong to the caller; what the
//! engine decides is here and verified: [`plan_parallel`] fixes the task
//! count and the exact number of messages to receive — the liveness contract
//! of the collection loop — and [`generate_rgb_frame_parallel`] performs the
//! merge, placing every message at its own tag, later messages over earlier
//! ones, exactly as a collection loop that writes each received color on
//! arrival would.
//!
//! [`lemma_parallel_matches_sequential`] ties the two generators together:
//! when every message reports the color of its own pixel in a sequentially
//! generated grid and every pixel is reported at least once — which is how
//! the caller's row tasks produce them — the merged color grid agrees with
//! the sequential grid pixel for pixel, whatever order the messages arrived
//! in. [`lemma_pipelines_agree`] says the same with the coloring spelled
//! out: against a deterministic hue closure, the merged grid is bit for bit
//! the sequential [`crate::color::colorize_frame`] of the same fractions.

use vstd::prelude::*;

use crate::color::Rgba;
use crate::color::colorized;
use crate::color::lemma_colorize_deterministic;
use crate::escape::PixelResult;
use crate::frame::MAX_WINDOW_DIM;
use crate::frame::half_extent;

verus! {

/// One pixel of a frame, as a worker task reports it: the absolute grid
/// index of the pixel and its color — `None` for an interior pixel, which is
/// not drawn.
#[derive(Clone, Copy, PartialEq, Eq, Debug)]
pub struct PixelMessage {
    /// Grid row index of the pixel.
    pub row: usize,
    /// Grid column index of the pixel.
    pub col: usize,
    /// The pixel's color, absent for an interior pixel.
    pub color: Option<Rgba>,
}

/// A dense rectangular grid of optional colors, indexed like a
/// [`crate::frame::Frame`]; an absent entry marks an interior pixel that is
/// not drawn.
pub struct RgbFrame {
    /// The rows of the grid, each row one optional color per column.
    pub pixels: Vec<Vec<Option<Rgba>>>,
}

impl RgbFrame {
    /// The grid as a sequence of rows of optional colors.
    pub open spec fn grid(self) -> Seq<Seq<Option<Rgba>>> {
        self.pixels@.map_values(|row: Vec<Option<Rgba>>| row@)
    }
}

/// A message's tag lies inside the grid of the window `(width, height)`.
pub open spec fn message_in_range(m: PixelMessage, width: usize, height: usize) -> bool {
    m.row < 2 * half_extent(width) && m.col < 2 * half_extent(height)
}

/// The color that the merge leaves at grid index `(i, j)` after writing the
/// messages in order: the color of the last message tagged `(i, j)`, or
/// `None` if no message is.
pub open spec fn scatter_cell(msgs: Seq<PixelMessage>, i: int, j: int) -> Option<Rgba>
    decreases msgs.len(),
{
    if msgs.len() == 0 {
        None
    } else if msgs.last().row as int == i && msgs.last().col as int == j {
        msgs.last().color
    } else {
        scatter_cell(msgs.drop_last(), i, j)
    }
}

/// The decomposition plan of one parallel frame: how many workers the pool
/// should hold, how many row tasks to submit, and how many pixel messages
/// the collection loop must receive — exactly one per pixel of the grid.
/// The expected message count is the liveness contract of the collection:
/// the tasks send exactly one message per pixel, so receiving exactly this
/// many is what keeps the loop from blocking forever or dropping results.
pub struct ParallelPlan {
    /// Number of workers: the host's available parallelism, at least one.
    pub workers: usize,
    /// Number of tasks to submit: one per grid row.
    pub row_tasks: usize,
    /// Number of messages to receive: one per pixel of the grid.
    pub expected_messages: usize,
}

/// Relies on `num_cpus::get`: the number of available logical CPUs of the
/// host, which its documentation promises to always be at least one.
#[verifier::external_body]
fn available_workers() -> (n: usize)
    ensures
        n >= 1,
{
    num_cpus::get()
}

/// Plans the parallel generation of one frame for the window
/// `(width, height)`: a pool sized to the host's available parallelism, one
/// task per grid row, and exactly one message to receive per pixel.
pub fn plan_parallel(width: usize, height: usize) -> (p: ParallelPlan)
    requires
        width <= MAX_WINDOW_DIM,
        height <= MAX_WINDOW_DIM,
    ensures
        p.workers >= 1,
        p.row_tasks == 2 * half_extent(width),
        p.expected_messages == 2 * half_extent(width) * (2 * half_extent(height)),
{
    let rows = width / 2;
    let columns = height / 2;
    proof {
        assert((2 * half_extent(width)) * (2 * half_extent(height)) <= 0x8000 * 0x8000)
            by (nonlinear_arith)
            requires
                width <= 0x8000,
                height <= 0x8000,
                half_extent(width) == width as int / 2,
                half_extent(height) == height as int / 2,
        ;
    }
    ParallelPlan {
        workers: available_workers(),
        row_tasks: 2 * rows,
        expected_messages: (2 * rows) * (2 * columns),
    }
}

/// Merges the collected pixel messages of one parallel frame into a dense
/// color grid of the window's shape.
///
/// The buffer starts with every pixel absent; each message is then written
/// at its tagged index, in the order given, so a pixel reported twice keeps
/// the later color and a pixel never reported stays absent. A message tagged
/// outside the grid yields `None` — with in-range tags, which is what the
/// row tasks produce, the merge always succeeds.
pub fn generate_rgb_frame_parallel(width: usize, height: usize, messages: &Vec<PixelMessage>) -> (r:
    Option<RgbFrame>)
    requires
        width <= MAX_WINDOW_DIM,
        height <= MAX_WINDOW_DIM,
    ensures
        r is Some <==> (forall|k: int|
            0 <= k < messages@.len() ==> message_in_range(#[trigger] messages@[k], width, height)),
        r matches Some(f) ==> {
            &&& f.grid().len() == 2 * half_extent(width)
            &&& forall|i: int|
                0 <= i < f.grid().len() ==> (#[trigger] f.grid()[i]).len() == 2 * half_extent(
                    height,
                )
            &&& forall|i: int, j: int|
                0 <= i < 2 * half_extent(width) && 0 <= j < 2 * half_extent(height)
                    ==> #[trigger] f.grid()[i][j] == scatter_cell(messages@, i, j)
        },
{
    let rows = width / 2;
    let columns = height / 2;
    let mut pixels: Vec<Vec<Option<Rgba>>> = Vec::new();
    let mut i: usize = 0;
    while i < 2 * rows
        invariant
            rows <= 0x4000,
            columns <= 0x4000,
            i <= 2 * rows,
            rows == half_extent(width),
            columns == half_extent(height),
            pixels@.len() == i,
            forall|i0: int| 0 <= i0 < i ==> (#[trigger] pixels@[i0])@.len() == 2 * columns,
            forall|i0: int, j0: int|
                0 <= i0 < i && 0 <= j0 < 2 * columns ==> #[trigger] pixels@[i0]@[j0] is None,
        decreases 2 * rows - i,
    {
        let mut row: Vec<Option<Rgba>> = Vec::new();
        let mut j: usize = 0;
        while j < 2 * columns
            invariant
                columns <= 0x4000,
                j <= 2 * columns,
                row@.len() == j,
                forall|j0: int| 0 <= j0 < j ==> #[trigger] row@[j0] is None,
            decreases 2 * columns - j,
        {
            row.push(None);
            j += 1;
        }
        pixels.push(row);
        i += 1;
    }
    proof {
        assert forall|i0: int, j0: int|
            0 <= i0 < 2 * half_extent(width) && 0 <= j0 < 2 * half_extent(height) implies #[trigger] pixels@[i0]@[j0]
            == scatter_cell(messages@.take(0), i0, j0) by {
            assert(messages@.take(0).len() == 0);
        }
    }
    let mut k: usize = 0;
    while k < messages.len()
        invariant
            rows <= 0x4000,
            columns <= 0x4000,
            k <= messages@.len(),
            rows == half_extent(width),
            columns == half_extent(height),
            pixels@.len() == 2 * rows,
            forall|i0: int| 0 <= i0 < 2 * rows ==> (#[trigger] pixels@[i0])@.len() == 2 * columns,
            forall|k0: int|
                0 <= k0 < k ==> message_in_range(#[trigger] messages@[k0], width, height),
            forall|i0: int, j0: int|
                0 <= i0 < 2 * rows && 0 <= j0 < 2 * columns ==> #[trigger] pixels@[i0]@[j0]
                    == scatter_cell(messages@.take(k as int), i0, j0),
        decreases messages@.len() - k,
    {
        let m = messages[k];
        if m.row >= 2 * rows || m.col >= 2 * columns {
            return None;
        }
        let ghost before = pixels@;
        pixels[m.row][m.col] = m.color;
        proof {
            let taken = messages@.take(k + 1);
            assert(taken.drop_last() =~= messages@.take(k as int));
            assert(taken.last() == messages@[k as int]);
            assert forall|i0: int, j0: int|
                0 <= i0 < 2 * rows && 0 <= j0 < 2 * columns implies #[trigger] pixels@[i0]@[j0]
                == scatter_cell(taken, i0, j0) by {
                if i0 == m.row as int && j0 == m.col as int {
                    assert(pixels@[i0]@[j0] == m.color);
                } else {
                    assert(pixels@[i0]@[j0] == before[i0]@[j0]);
                }
            }
        }
        k += 1;
    }
    proof {
        assert(messages@.take(messages@.len() as int) =~= messages@);
    }
    let f = RgbFrame { pixels };
    proof {
        assert(forall|i0: int|
            0 <= i0 < f.grid().len() ==> #[trigger] f.grid()[i0] == f.pixels@[i0]@);
    }
    Some(f)
}

/// Some message of the batch is tagged with the grid index `(i, j)`.
pub open spec fn covered(msgs: Seq<PixelMessage>, i: int, j: int) -> bool {
    exists|k: int|
        0 <= k < msgs.len() && (#[trigger] msgs[k]).row as int == i && msgs[k].col as int == j
}

/// The color the merge leaves at `(i, j)` when every message tagged `(i, j)`
/// carries the same color `v` and at least one message is: exactly `v`.
proof fn lemma_scatter_cell_agrees(msgs: Seq<PixelMessage>, i: int, j: int, v: Option<Rgba>)
    requires
        forall|k: int|
            0 <= k < msgs.len() && (#[trigger] msgs[k]).row as int == i && msgs[k].col as int == j
                ==> msgs[k].color == v,
        covered(msgs, i, j),
    ensures
        scatter_cell(msgs, i, j) == v,
    decreases msgs.len(),
{
    let last = msgs.last();
    if last.row as int == i && last.col as int == j {
        assert(msgs[msgs.len() - 1].color == v);
    } else {
        let k = choose|k: int|
            0 <= k < msgs.len() && (#[trigger] msgs[k]).row as int == i && msgs[k].col as int == j;
        assert(k < msgs.len() - 1);
        assert(msgs.drop_last()[k] == msgs[k]);
        assert(covered(msgs.drop_last(), i, j));
        lemma_scatter_cell_agrees(msgs.drop_last(), i, j, v);
    }
}

/// The parallel and the sequential generator agree, entry for entry: when
/// every collected message reports, at its own tag, the color of that pixel
/// in a sequentially generated grid — the tagged pixel's result mapped
/// through one color mapping — and every pixel of the grid is reported at
/// least once, then the merged color grid is exactly the sequential grid
/// mapped pixel for pixel, whatever order the messages arrived in.
pub proof fn lemma_parallel_matches_sequential(
    msgs: Seq<PixelMessage>,
    rgb: Seq<Seq<Option<Rgba>>>,
    frame: Seq<Seq<PixelResult>>,
    width: usize,
    height: usize,
    col_of: spec_fn(PixelResult) -> Option<Rgba>,
)
    requires
        frame.len() == 2 * half_extent(width),
        forall|i: int| 0 <= i < frame.len() ==> (#[trigger] frame[i]).len() == 2 * half_extent(
            height,
        ),
        rgb.len() == 2 * half_extent(width),
        forall|i: int| 0 <= i < rgb.len() ==> (#[trigger] rgb[i]).len() == 2 * half_extent(height),
        forall|i: int, j: int|
            0 <= i < 2 * half_extent(width) && 0 <= j < 2 * half_extent(height)
                ==> #[trigger] rgb[i][j] == scatter_cell(msgs, i, j),
        forall|k: int|
            0 <= k < msgs.len() ==> message_in_range(#[trigger] msgs[k], width, height) && msgs[k].color
                == col_of(frame[msgs[k].row as int][msgs[k].col as int]),
        forall|i: int, j: int|
            0 <= i < 2 * half_extent(width) && 0 <= j < 2 * half_extent(height) ==> #[trigger] covered(
                msgs,
                i,
                j,
            ),
    ensures
        forall|i: int, j: int|
            0 <= i < 2 * half_extent(width) && 0 <= j < 2 * half_extent(height)
                ==> #[trigger] rgb[i][j] == col_of(frame[i][j]),
{
    assert forall|i: int, j: int|
        0 <= i < 2 * half_extent(width) && 0 <= j < 2 * half_extent(height) implies #[trigger] rgb[i][j]
        == col_of(frame[i][j]) by {
        lemma_scatter_cell_agrees(msgs, i, j, col_of(frame[i][j]));
    }
}

/// The two rendering pipelines agree on every pixel: a parallel frame
/// merged from messages whose colors satisfy [`colorized`] for their own
/// pixels, with every pixel reported, is identical — color for color, bit
/// for bit — to the sequential coloring of the same fraction grid, provided
/// the hue closure is deterministic. This is the two generators' common
/// contract made concrete: fan-out by row, fan-in in any arrival order, and
/// nothing changes against the single-threaded path.
pub proof fn lemma_pipelines_agree<C: Fn(u64, u64) -> (u32, u32, u32)>(
    to_rgb: C,
    msgs: Seq<PixelMessage>,
    rgb: Seq<Seq<Option<Rgba>>>,
    frame: Seq<Seq<PixelResult>>,
    colored: Seq<Seq<Option<Rgba>>>,
    width: usize,
    height: usize,
    budget: u64,
)
    requires
        frame.len() == 2 * half_extent(width),
        forall|i: int| 0 <= i < frame.len() ==> (#[trigger] frame[i]).len() == 2 * half_extent(
            height,
        ),
        rgb.len() == 2 * half_extent(width),
        forall|i: int| 0 <= i < rgb.len() ==> (#[trigger] rgb[i]).len() == 2 * half_extent(height),
        colored.len() == frame.len(),
        forall|i: int| 0 <= i < colored.len() ==> (#[trigger] colored[i]).len() == frame[i].len(),
        forall|i: int, j: int|
            0 <= i < 2 * half_extent(width) && 0 <= j < 2 * half_extent(height)
                ==> #[trigger] rgb[i][j] == scatter_cell(msgs, i, j),
        forall|i: int, j: int|
            0 <= i < colored.len() && 0 <= j < colored[i].len() ==> colorized(
                to_rgb,
                frame[i][j],
                budget,
                #[trigger] colored[i][j],
            ),
        forall|k: int|
            0 <= k < msgs.len() ==> message_in_range(#[trigger] msgs[k], width, height)
                && colorized(
                to_rgb,
                frame[msgs[k].row as int][msgs[k].col as int],
                budget,
                msgs[k].color,
            ),
        forall|i: int, j: int|
            0 <= i < 2 * half_extent(width) && 0 <= j < 2 * half_extent(height) ==> #[trigger] covered(
                msgs,
                i,
                j,
            ),
        forall|a: (u64, u64), o1: (u32, u32, u32), o2: (u32, u32, u32)|
            call_ensures(to_rgb, a, o1) && call_ensures(to_rgb, a, o2) ==> o1 == o2,
    ensures
        forall|i: int, j: int|
            0 <= i < 2 * half_extent(width) && 0 <= j < 2 * half_extent(height)
                ==> #[trigger] rgb[i][j] == colored[i][j],
{
    assert forall|i: int, j: int|
        0 <= i < 2 * half_extent(width) && 0 <= j < 2 * half_extent(height) implies #[trigger] rgb[i][j]
        == colored[i][j] by {
        assert forall|k: int|
            0 <= k < msgs.len() && (#[trigger] msgs[k]).row as int == i && msgs[k].col as int
                == j implies msgs[k].color == colored[i][j] by {
            lemma_colorize_deterministic(to_rgb, frame[i][j], budget, msgs[k].color, colored[i][j]);
        }
        lemma_scatter_cell_agrees(msgs, i, j, colored[i][j]);
    }
}

} // verus!
