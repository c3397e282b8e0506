//! The color mapper: an escape fraction becomes a hue-rotated color.
//!
//! A pixel that escaped on step `k` of a budget `n` stands for the fraction
//! `f = k / n`, and its hue angle in degrees is `359 - ((360 * f) mod 359)`.
//! Either constant of this formula could arguably be 359 or 360, and the
//! boundary behavior near `f = 1` differs slightly between the choices; this
//! engine fixes both at 359 as a deliberate normalization.
//! The formula is evaluated here exactly, as a rational number over the
//! budget: `(360 * f) mod 359 == ((360 * k) mod (359 * n)) / n`, so the hue
//! is `(359 * n - ((360 * k) mod (359 * n))) / n` degrees. The caller turns
//! that exact ratio into a color at fixed saturation and lightness `0.8`;
//! that conversion is floating-point work and enters [`colorize`] as a
//! closure from the hue ratio to the bit patterns of the three channels.
//!
//! Interior pixels never reach the hue closure: [`colorize`] keeps the
//! sentinel filter itself, and its contract says that a color comes out
//! exactly for escaped pixels. The alpha channel of every produced color is
//! fully opaque.

use vstd::prelude::*;

use crate::escape::PixelResult;
use crate::frame::Frame;
use crate::view::MAX_ITERATIONS;

verus! {

/// Bit pattern of the single-precision float one: a fully opaque alpha
/// channel.
pub const OPAQUE_ALPHA_BITS: u32 = 0x3F80_0000;

/// The numerator of the hue angle of the escape fraction `step / budget`,
/// over the denominator `budget`: the angle is
/// `359 - ((360 * step / budget) mod 359)` degrees, written as one ratio.
pub open spec fn hue_numerator(step: u64, budget: u64) -> int {
    359 * budget - ((360 * step) % (359 * budget))
}

/// An RGBA color, each channel the bit pattern of a single-precision float
/// in `[0, 1]`.
#[derive(Clone, Copy, PartialEq, Eq, Structural, Debug)]
pub struct Rgba {
    /// Bit pattern of the red channel.
    pub r_bits: u32,
    /// Bit pattern of the green channel.
    pub g_bits: u32,
    /// Bit pattern of the blue channel.
    pub b_bits: u32,
    /// Bit pattern of the alpha channel.
    pub a_bits: u32,
}

/// The hue angle of the escape fraction `step / budget`, as the exact ratio
/// `numerator / denominator` in degrees. The angle lies in `(0, 359]`:
/// strictly positive and never a full turn.
pub fn hue_fraction(step: u64, budget: u64) -> (h: (u64, u64))
    requires
        1 <= step <= budget <= MAX_ITERATIONS,
    ensures
        h.0 == hue_numerator(step, budget),
        h.1 == budget,
        0 < h.0 <= 359 * budget,
{
    let modulus = 359 * budget;
    let turned = (360 * step) % modulus;
    (modulus - turned, budget)
}

/// What [`colorize`] promises of its result `c`, given the hue closure it
/// was handed: interior pixels yield no color, and a pixel escaped on `step`
/// yields an opaque color whose channels are an output of the closure on the
/// exact hue ratio of `step / budget`.
pub open spec fn colorized<C: Fn(u64, u64) -> (u32, u32, u32)>(
    to_rgb: C,
    result: PixelResult,
    budget: u64,
    c: Option<Rgba>,
) -> bool {
    match result {
        PixelResult::Interior => c is None,
        PixelResult::EscapedAt { step } => match c {
            None => false,
            Some(px) => {
                &&& px.a_bits == OPAQUE_ALPHA_BITS
                &&& call_ensures(
                    to_rgb,
                    (hue_numerator(step, budget) as u64, budget),
                    (px.r_bits, px.g_bits, px.b_bits),
                )
            },
        },
    }
}

/// Maps one pixel result to its color, if it has one.
///
/// The sentinel filter lives here: an interior pixel yields `None` and the
/// hue closure is not called for it, so no sentinel fraction ever reaches
/// the color conversion. An escaped pixel yields `Some` color built from the
/// closure's channels for the pixel's exact hue ratio, with a fully opaque
/// alpha.
pub fn colorize<C: Fn(u64, u64) -> (u32, u32, u32)>(
    result: &PixelResult,
    budget: u64,
    to_rgb: &C,
) -> (c: Option<Rgba>)
    requires
        result.valid(budget),
        1 <= budget <= MAX_ITERATIONS,
        result matches PixelResult::EscapedAt { step } ==> call_requires(
            *to_rgb,
            (hue_numerator(*step, budget) as u64, budget),
        ),
    ensures
        colorized(*to_rgb, *result, budget, c),
        c is Some <==> result is EscapedAt,
{
    match result {
        PixelResult::Interior => None,
        PixelResult::EscapedAt { step } => {
            let (numerator, denominator) = hue_fraction(*step, budget);
            let (r, g, b) = to_rgb(numerator, denominator);
            Some(Rgba { r_bits: r, g_bits: g, b_bits: b, a_bits: OPAQUE_ALPHA_BITS })
        },
    }
}

/// Colors a whole fraction grid, pointwise: the sequential rendering path —
/// skip interior pixels, hue-map the rest — applied to every cell of a
/// frame. The returned grid has the frame's shape, and each entry satisfies
/// [`colorized`] for the frame's cell at the same index: absent exactly for
/// interior cells, otherwise an opaque color from the hue closure on that
/// cell's exact hue ratio.
pub fn colorize_frame<C: Fn(u64, u64) -> (u32, u32, u32)>(
    frame: &Frame,
    budget: u64,
    to_rgb: &C,
) -> (g: Vec<Vec<Option<Rgba>>>)
    requires
        frame.all_valid(budget),
        1 <= budget <= MAX_ITERATIONS,
        forall|a: (u64, u64)| call_requires(*to_rgb, a),
    ensures
        g@.len() == frame.grid().len(),
        forall|i: int| 0 <= i < g@.len() ==> (#[trigger] g@[i])@.len() == frame.grid()[i].len(),
        forall|i: int, j: int|
            0 <= i < g@.len() && 0 <= j < g@[i]@.len() ==> colorized(
                *to_rgb,
                frame.grid()[i][j],
                budget,
                #[trigger] g@[i]@[j],
            ),
{
    let mut g: Vec<Vec<Option<Rgba>>> = Vec::new();
    let mut i: usize = 0;
    let total_rows = frame.cells.len();
    while i < total_rows
        invariant
            total_rows == frame.grid().len(),
            frame.all_valid(budget),
            1 <= budget <= MAX_ITERATIONS,
            forall|a: (u64, u64)| call_requires(*to_rgb, a),
            i <= total_rows,
            g@.len() == i,
            forall|i0: int| 0 <= i0 < i ==> (#[trigger] g@[i0])@.len() == frame.grid()[i0].len(),
            forall|i0: int, j0: int|
                0 <= i0 < i && 0 <= j0 < g@[i0]@.len() ==> colorized(
                    *to_rgb,
                    frame.grid()[i0][j0],
                    budget,
                    #[trigger] g@[i0]@[j0],
                ),
        decreases total_rows - i,
    {
        let mut row: Vec<Option<Rgba>> = Vec::new();
        let mut j: usize = 0;
        let total_cols = frame.cells[i].len();
        while j < total_cols
            invariant
                total_rows == frame.grid().len(),
                i < total_rows,
                total_cols == frame.grid()[i as int].len(),
                frame.all_valid(budget),
                1 <= budget <= MAX_ITERATIONS,
                forall|a: (u64, u64)| call_requires(*to_rgb, a),
                j <= total_cols,
                row@.len() == j,
                forall|j0: int|
                    0 <= j0 < j ==> colorized(
                        *to_rgb,
                        frame.grid()[i as int][j0],
                        budget,
                        #[trigger] row@[j0],
                    ),
            decreases total_cols - j,
        {
            let cell = &frame.cells[i][j];
            proof {
                assert(frame.grid()[i as int] == frame.cells@[i as int]@);
                assert(frame.grid()[i as int][j as int].valid(budget));
            }
            let c = colorize(cell, budget, to_rgb);
            row.push(c);
            j += 1;
        }
        g.push(row);
        i += 1;
        proof {
            assert(forall|i0: int|
                0 <= i0 < total_rows ==> #[trigger] frame.grid()[i0] == frame.cells@[i0]@);
        }
    }
    g
}

/// The sentinel filter, seen from outside: any colored pixel that satisfies
/// [`colorized`] — every entry of a grid that [`colorize_frame`] returns —
/// is drawn exactly when its result escaped. An interior result, the role of
/// the sentinel fraction, never produces a color.
pub proof fn lemma_colorized_filters_sentinel<C: Fn(u64, u64) -> (u32, u32, u32)>(
    to_rgb: C,
    result: PixelResult,
    budget: u64,
    c: Option<Rgba>,
)
    requires
        colorized(to_rgb, result, budget, c),
    ensures
        c is Some <==> result is EscapedAt,
{
}

/// The color mapping is pure: when the hue closure is deterministic — any
/// two of its outputs for one input agree — two colors obtained for the same
/// pixel result and budget are identical, bit for bit.
pub proof fn lemma_colorize_deterministic<C: Fn(u64, u64) -> (u32, u32, u32)>(
    to_rgb: C,
    result: PixelResult,
    budget: u64,
    c1: Option<Rgba>,
    c2: Option<Rgba>,
)
    requires
        colorized(to_rgb, result, budget, c1),
        colorized(to_rgb, result, budget, c2),
        forall|a: (u64, u64), o1: (u32, u32, u32), o2: (u32, u32, u32)|
            call_ensures(to_rgb, a, o1) && call_ensures(to_rgb, a, o2) ==> o1 == o2,
    ensures
        c1 == c2,
{
    match result {
        PixelResult::Interior => {
        },
        PixelResult::EscapedAt { step } => {
            let px1 = c1->Some_0;
            let px2 = c2->Some_0;
            assert((px1.r_bits, px1.g_bits, px1.b_bits) == (px2.r_bits, px2.g_bits, px2.b_bits));
            assert(px1 == px2);
        },
    }
}

} // verus!
