//! The view state: center coordinates, zoom factor and iteration budget for
//! one frame, and the evolution of the zoom between frames.
//!
//! The engine never does floating-point arithmetic itself, so the three
//! `f64` quantities of the view live here as their IEEE 754 bit patterns
//! (`u64`). The well-formedness predicate and the zoom evolution are stated
//! and proved purely on those patterns:
//!
//! - a double is finite (neither infinity nor NaN) exactly when its exponent
//!   field is not all ones, that is `bits & INFINITY_BITS != INFINITY_BITS`;
//! - a double is positive and normal exactly when
//!   `MIN_NORMAL_BITS <= bits < INFINITY_BITS`;
//! - doubling a positive normal double is exact and leaves the mantissa
//!   untouched: it adds one to the exponent field, that is it adds
//!   `ZOOM_GROWTH_STEP` to the bit pattern, as long as the sum stays below
//!   `INFINITY_BITS`.
//!
//! The growth factor is fixed at two — one binary exponent step per frame —
//! which keeps the transition exact at every zoom level the type can
//! represent. Once the exponent reaches its ceiling the next step would
//! produce infinity; the transition reports that boundary explicitly instead
//! of growing further. Deep zooms degrade visually long before that point
//! (the per-pixel offset `1/zoom` falls below the precision of the
//! coordinates); that degradation is an open limitation of the design, not
//! something the engine detects.

use vstd::prelude::*;

verus! {

/// Bit pattern of the smallest positive normal IEEE 754 double, `2^-1022`.
pub const MIN_NORMAL_BITS: u64 = 0x0010_0000_0000_0000;

/// Bit pattern of positive infinity: exponent field all ones, mantissa zero.
pub const INFINITY_BITS: u64 = 0x7FF0_0000_0000_0000;

/// One step of the exponent field of a double. Added to the bit pattern of a
/// positive normal double it doubles the value exactly.
pub const ZOOM_GROWTH_STEP: u64 = 0x0010_0000_0000_0000;

/// Largest accepted iteration budget. The hue formula multiplies the budget
/// by 360, so the budget must stay below `u64::MAX / 360`; `2^51` leaves a
/// wide margin and exceeds any budget a frame could spend.
pub const MAX_ITERATIONS: u64 = 0x0008_0000_0000_0000;

/// A double's bit pattern denotes a finite number (not infinity, not NaN)
/// exactly when its exponent field is not all ones.
pub open spec fn finite_bits(bits: u64) -> bool {
    bits & INFINITY_BITS != INFINITY_BITS
}

/// A double's bit pattern denotes a positive normal number exactly when it
/// lies between the smallest positive normal pattern and the pattern of
/// positive infinity.
pub open spec fn positive_normal_bits(bits: u64) -> bool {
    MIN_NORMAL_BITS <= bits < INFINITY_BITS
}

/// The view state of one frame: the center of the view on the complex plane,
/// the zoom factor, and the iteration budget of the escape evaluator.
///
/// `re_bits`, `im_bits` and `zoom_bits` hold IEEE 754 double bit patterns;
/// the caller converts with `f64::to_bits` and `f64::from_bits`.
#[derive(Clone, Copy, PartialEq, Eq, Structural, Debug)]
pub struct ZoomLocation {
    /// Bit pattern of the real part of the view center.
    pub re_bits: u64,
    /// Bit pattern of the imaginary part of the view center.
    pub im_bits: u64,
    /// Bit pattern of the zoom factor.
    pub zoom_bits: u64,
    /// Iteration budget of the escape evaluator.
    pub iterations: u64,
}

impl ZoomLocation {
    /// The invariant of a usable view: finite center coordinates, a positive
    /// normal zoom, and a positive iteration budget within the arithmetic
    /// bound of the hue formula.
    pub open spec fn wf(self) -> bool {
        &&& finite_bits(self.re_bits)
        &&& finite_bits(self.im_bits)
        &&& positive_normal_bits(self.zoom_bits)
        &&& 1 <= self.iterations <= MAX_ITERATIONS
    }

    /// Decides the invariant, so that an unverified caller can validate a
    /// view before handing it to the engine.
    pub fn is_well_formed(&self) -> (b: bool)
        ensures
            b == self.wf(),
    {
        (self.re_bits & INFINITY_BITS) != INFINITY_BITS
            && (self.im_bits & INFINITY_BITS) != INFINITY_BITS
            && MIN_NORMAL_BITS <= self.zoom_bits && self.zoom_bits < INFINITY_BITS
            && 1 <= self.iterations && self.iterations <= MAX_ITERATIONS
    }
}

/// What one evolution step yields: the same view with the zoom doubled, or
/// nothing once the doubled zoom would leave the positive normal range.
pub open spec fn evolved(zl: ZoomLocation) -> Option<ZoomLocation> {
    if zl.zoom_bits + ZOOM_GROWTH_STEP < INFINITY_BITS {
        Some(
            ZoomLocation {
                zoom_bits: (zl.zoom_bits + ZOOM_GROWTH_STEP) as u64,
                ..zl
            },
        )
    } else {
        None
    }
}

/// `n` evolution steps in sequence.
pub open spec fn evolved_times(zl: ZoomLocation, n: nat) -> Option<ZoomLocation>
    decreases n,
{
    if n == 0 {
        Some(zl)
    } else {
        match evolved_times(zl, (n - 1) as nat) {
            Some(z) => evolved(z),
            None => None,
        }
    }
}

/// Advances the view by one frame: the zoom doubles, everything else stays.
///
/// Doubling is performed exactly, as one step of the binary exponent of the
/// zoom. The step succeeds exactly while the doubled zoom is still a positive
/// normal double; at the boundary the function returns `None` rather than
/// let the zoom leave the representable range.
pub fn evolve(zl: &ZoomLocation) -> (r: Option<ZoomLocation>)
    requires
        zl.wf(),
    ensures
        r == evolved(*zl),
        r matches Some(z) ==> {
            &&& z.wf()
            &&& z.zoom_bits == zl.zoom_bits + ZOOM_GROWTH_STEP
            &&& z.re_bits == zl.re_bits
            &&& z.im_bits == zl.im_bits
            &&& z.iterations == zl.iterations
        },
        r is None <==> zl.zoom_bits + ZOOM_GROWTH_STEP >= INFINITY_BITS,
{
    if zl.zoom_bits < INFINITY_BITS - ZOOM_GROWTH_STEP {
        Some(
            ZoomLocation {
                zoom_bits: zl.zoom_bits + ZOOM_GROWTH_STEP,
                ..*zl
            },
        )
    } else {
        None
    }
}

/// Evolving `n` times from a well-formed view multiplies the zoom by `2^n` —
/// the exponent field of the zoom grows by `n` steps while the mantissa, the
/// center coordinates and the iteration budget stay exactly as they were —
/// as long as the final zoom is still below the infinite range.
pub proof fn lemma_evolved_times(zl: ZoomLocation, n: nat)
    requires
        zl.wf(),
        zl.zoom_bits + n * ZOOM_GROWTH_STEP < INFINITY_BITS,
    ensures
        evolved_times(zl, n) matches Some(z) && {
            &&& z.wf()
            &&& z.zoom_bits == zl.zoom_bits + n * ZOOM_GROWTH_STEP
            &&& z.re_bits == zl.re_bits
            &&& z.im_bits == zl.im_bits
            &&& z.iterations == zl.iterations
        },
    decreases n,
{
    if n == 0 {
        assert(zl.zoom_bits + 0 * ZOOM_GROWTH_STEP == zl.zoom_bits);
    } else {
        assert((n - 1) * ZOOM_GROWTH_STEP + ZOOM_GROWTH_STEP == n * ZOOM_GROWTH_STEP)
            by (nonlinear_arith);
        lemma_evolved_times(zl, (n - 1) as nat);
    }
}

} // verus!
