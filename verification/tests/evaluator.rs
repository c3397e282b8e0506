//! Tests of the escape-time evaluator: the state machine driven by real
//! complex arithmetic, and the fold over recorded magnitude tests.

use mandelbrot::PixelResult;
use mandelbrot::StepOutcome;
use mandelbrot::escape_outcome;
use mandelbrot::escape_step;
use num::complex::Complex64;

/// Evaluates one complex coordinate the way the engine's caller does: iterate
/// `z := z*z + c` from `z = c` and report each magnitude test to the verified
/// state machine.
fn evaluate_pixel(re: f64, im: f64, budget: u64) -> PixelResult {
    let c = Complex64::new(re, im);
    let mut z = c.clone();
    let mut done: u64 = 0;
    loop {
        z = z.powu(2) + c;
        let escaped = z.norm() > 2.0;
        match escape_step(done, budget, escaped) {
            StepOutcome::Done { result } => return result,
            StepOutcome::Continue { done: next } => done = next,
        }
    }
}

#[test]
fn origin_is_interior_for_any_budget() {
    for budget in [1u64, 2, 5, 100, 2048] {
        assert_eq!(evaluate_pixel(0.0, 0.0, budget), PixelResult::Interior);
    }
}

#[test]
fn two_plus_two_i_escapes_on_first_step() {
    let result = evaluate_pixel(2.0, 2.0, 100);
    assert_eq!(result, PixelResult::EscapedAt { step: 1 });
    match result {
        PixelResult::EscapedAt { step } => {
            assert_eq!(step as f64 / 100.0, 0.01);
        },
        PixelResult::Interior => panic!("2+2i must escape"),
    }
}

#[test]
fn budget_of_one_settles_every_pixel() {
    assert_eq!(evaluate_pixel(0.0, 0.0, 1), PixelResult::Interior);
    assert_eq!(evaluate_pixel(2.0, 2.0, 1), PixelResult::EscapedAt { step: 1 });
}

#[test]
fn interior_point_of_the_main_cardioid_never_escapes() {
    assert_eq!(evaluate_pixel(-0.1, 0.1, 512), PixelResult::Interior);
}

#[test]
fn escape_outcome_picks_first_positive_test() {
    assert_eq!(
        escape_outcome(&vec![false, false, true, false, true]),
        PixelResult::EscapedAt { step: 3 }
    );
    assert_eq!(escape_outcome(&vec![true]), PixelResult::EscapedAt { step: 1 });
    assert_eq!(escape_outcome(&vec![false, false, false, false]), PixelResult::Interior);
}

#[test]
fn recorded_tests_match_live_drive() {
    let samples = [(-0.1f64, 0.8f64), (0.3, 0.5), (-1.75, 0.0), (1.0, 1.0)];
    let budget: u64 = 60;
    for (re, im) in samples {
        let c = Complex64::new(re, im);
        let mut z = c.clone();
        let mut tests: Vec<bool> = Vec::new();
        for _ in 0..budget {
            z = z.powu(2) + c;
            tests.push(z.norm() > 2.0);
        }
        assert_eq!(escape_outcome(&tests), evaluate_pixel(re, im, budget));
    }
}
