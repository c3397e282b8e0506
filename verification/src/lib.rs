//! An escape-time fractal engine over the complex plane.
//!
//! The engine maps a rectangular pixel grid, centered on a view location at
//! a given zoom, to per-pixel escape results of the iterated map
//! `z := z*z + c`, and turns escape results into hue-rotated colors.
//! Everything the engine decides is stated in contracts and verified: the
//! escape-step state machine, grid shape and indexing, the sequential and
//! parallel frame assembly, the exact hue formula, the sentinel filter, and
//! the zoom evolution. The floating-point kernel — complex arithmetic, the
//! magnitude test, and the hue-saturation-lightness conversion — cannot be
//! verified and is supplied by the caller as plain values and closures: real
//! and imaginary parts travel as IEEE 754 bit patterns, and per-pixel
//! evaluation enters as a closure whose outputs the contracts quantify over.

pub mod color;
pub mod escape;
pub mod frame;
pub mod parallel;
pub mod view;

pub use color::OPAQUE_ALPHA_BITS;
pub use color::Rgba;
pub use color::colorize;
pub use color::colorize_frame;
pub use color::hue_fraction;
pub use escape::PixelResult;
pub use escape::StepOutcome;
pub use escape::escape_outcome;
pub use escape::escape_step;
pub use frame::Frame;
pub use frame::generate_frame;
pub use parallel::ParallelPlan;
pub use parallel::PixelMessage;
pub use parallel::RgbFrame;
pub use parallel::generate_rgb_frame_parallel;
pub use parallel::plan_parallel;
pub use view::ZoomLocation;
pub use view::evolve;
