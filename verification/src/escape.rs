//! The escape-time evaluator, as a state machine over iteration counts.
//!
//! For a complex coordinate `c` the evaluator iterates `z := z*z + c`,
//! starting from `z = c`, and looks after every step whether the magnitude of
//! `z` exceeds two. The complex arithmetic and the magnitude test are
//! floating-point work and stay with the caller; everything the evaluator
//! decides from the outcome of those tests is here. The caller drives one
//! pixel by calling [`escape_step`] after each iteration with the result of
//! its magnitude test; the returned [`StepOutcome`] says whether to go on,
//! and with which count, or what the pixel's result is.
//!
//! A pixel that escapes on step `k` (counted from one) stands for the escape
//! fraction `k / budget`; a pixel that never escapes within the budget is
//! [`PixelResult::Interior`], the role the sentinel fraction `0.0` plays in a
//! plain fraction grid. Since a valid escape step is at least one, the
//! smallest genuine fraction is `1 / budget` and the sentinel can never be
//! mistaken for a computed fraction; [`lemma_sentinel_unambiguous`] states
//! exactly that.

use vstd::prelude::*;

verus! {

/// The result of evaluating one pixel: either the point never left the
/// escape radius within the iteration budget, or it escaped on the given
/// step, counted from one.
#[derive(Clone, Copy, PartialEq, Eq, Structural, Debug)]
pub enum PixelResult {
    /// The point did not escape within the budget; rendered as "no pixel".
    Interior,
    /// The point escaped on iteration `step`, with `1 <= step <= budget`;
    /// it stands for the escape fraction `step / budget`.
    EscapedAt {
        /// The iteration, counted from one, after which the magnitude first
        /// exceeded the escape radius.
        step: u64,
    },
}

impl PixelResult {
    /// A result fits a budget when an escape step lies between one and the
    /// budget.
    pub open spec fn valid(self, budget: u64) -> bool {
        match self {
            PixelResult::Interior => true,
            PixelResult::EscapedAt { step } => 1 <= step <= budget,
        }
    }

    /// The numerator of the escape fraction this result stands for, over the
    /// denominator `budget`; the sentinel numerator zero means interior.
    pub open spec fn fraction_numerator(self) -> u64 {
        match self {
            PixelResult::Interior => 0,
            PixelResult::EscapedAt { step } => step,
        }
    }
}

/// The sentinel is unambiguous: for a result that fits its budget, a
/// fraction numerator of zero means exactly that the point is interior — a
/// genuine escape fraction is at least `1 / budget` and never zero.
pub proof fn lemma_sentinel_unambiguous(r: PixelResult, budget: u64)
    requires
        r.valid(budget),
    ensures
        r.fraction_numerator() == 0 <==> r is Interior,
{
}

/// What the evaluator does after one more iteration of the map.
#[derive(Clone, Copy, PartialEq, Eq, Structural, Debug)]
pub enum StepOutcome {
    /// The pixel is settled.
    Done {
        /// The pixel's result.
        result: PixelResult,
    },
    /// The pixel is not settled; iterate once more and report again.
    Continue {
        /// How many iterations are now done.
        done: u64,
    },
}

/// One transition of the evaluator: `done` iterations were complete before
/// this one, the caller has just computed iteration `done + 1` of
/// `z := z*z + c` and reports in `escaped` whether the magnitude of `z` now
/// exceeds two. An escape settles the pixel at step `done + 1`; an exhausted
/// budget settles it as interior; otherwise the evaluation goes on.
pub fn escape_step(done: u64, budget: u64, escaped: bool) -> (r: StepOutcome)
    requires
        done < budget,
    ensures
        escaped ==> r == (StepOutcome::Done {
            result: PixelResult::EscapedAt { step: (done + 1) as u64 },
        }),
        !escaped && done + 1 == budget ==> r == (StepOutcome::Done {
            result: PixelResult::Interior,
        }),
        !escaped && done + 1 < budget ==> r == (StepOutcome::Continue { done: (done + 1) as u64 }),
{
    if escaped {
        StepOutcome::Done { result: PixelResult::EscapedAt { step: done + 1 } }
    } else if done + 1 == budget {
        StepOutcome::Done { result: PixelResult::Interior }
    } else {
        StepOutcome::Continue { done: done + 1 }
    }
}

/// The pixel result determined by the magnitude tests from iteration `k + 1`
/// on, when the tests of the whole budget are written out as a sequence:
/// `tests[i]` says whether the magnitude exceeded two right after iteration
/// `i + 1`.
pub open spec fn escape_result_from(tests: Seq<bool>, k: nat) -> PixelResult
    decreases tests.len() - k when k <= tests.len()
{
    if k == tests.len() {
        PixelResult::Interior
    } else if tests[k as int] {
        PixelResult::EscapedAt { step: (k + 1) as u64 }
    } else {
        escape_result_from(tests, k + 1)
    }
}

/// The pixel result determined by a whole sequence of magnitude tests: the
/// first positive test settles the escape step, and a sequence without one
/// leaves the pixel interior.
pub open spec fn escape_result(tests: Seq<bool>) -> PixelResult {
    escape_result_from(tests, 0)
}

/// Folds a recorded sequence of magnitude tests — one entry per iteration of
/// the budget, in order — through the evaluator's state machine. The result
/// is exactly [`escape_result`] of the record: the first positive test wins,
/// and a record without one yields an interior pixel.
pub fn escape_outcome(tests: &Vec<bool>) -> (r: PixelResult)
    requires
        1 <= tests@.len(),
    ensures
        r == escape_result(tests@),
        r.valid(tests@.len() as u64),
{
    let budget: usize = tests.len();
    let mut done: usize = 0;
    loop
        invariant
            budget == tests@.len(),
            1 <= budget,
            done < budget,
            escape_result(tests@) == escape_result_from(tests@, done as nat),
        decreases budget - done,
    {
        let escaped = tests[done];
        match escape_step(done as u64, budget as u64, escaped) {
            StepOutcome::Done { result } => {
                proof {
                    if !escaped {
                        assert(escape_result_from(tests@, done as nat) == escape_result_from(
                            tests@,
                            (done + 1) as nat,
                        ));
                    }
                    lemma_escape_result_from_valid(tests@, done as nat);
                }
                return result;
            },
            StepOutcome::Continue { done: next } => {
                proof {
                    assert(escape_result_from(tests@, done as nat) == escape_result_from(
                        tests@,
                        (done + 1) as nat,
                    ));
                }
                done = next as usize;
            },
        }
    }
}

/// Every result the test-fold can yield fits the budget the record spans.
proof fn lemma_escape_result_from_valid(tests: Seq<bool>, k: nat)
    requires
        k <= tests.len(),
        tests.len() <= u64::MAX,
    ensures
        escape_result_from(tests, k).valid(tests.len() as u64),
    decreases tests.len() - k,
{
    if k < tests.len() && !tests[k as int] {
        lemma_escape_result_from_valid(tests, k + 1);
    }
}

/// A pixel is interior exactly when no iteration of the budget drove the
/// magnitude over the escape radius.
pub proof fn lemma_escape_result_interior(tests: Seq<bool>)
    ensures
        escape_result(tests) == PixelResult::Interior <==> (forall|i: int|
            0 <= i < tests.len() ==> !tests[i]),
{
    lemma_escape_result_from_interior(tests, 0);
}

proof fn lemma_escape_result_from_interior(tests: Seq<bool>, k: nat)
    requires
        k <= tests.len(),
    ensures
        escape_result_from(tests, k) == PixelResult::Interior <==> (forall|i: int|
            k <= i < tests.len() ==> !tests[i]),
    decreases tests.len() - k,
{
    if k < tests.len() && !tests[k as int] {
        lemma_escape_result_from_interior(tests, k + 1);
    }
}

/// An escape step names the first iteration whose test was positive: the
/// step lies within the budget, its own test was positive, and every earlier
/// test was negative.
pub proof fn lemma_escape_result_first(tests: Seq<bool>, step: u64)
    requires
        tests.len() <= u64::MAX,
        escape_result(tests) == (PixelResult::EscapedAt { step }),
    ensures
        1 <= step <= tests.len(),
        tests[step - 1],
        forall|i: int| 0 <= i < step - 1 ==> !tests[i],
{
    lemma_escape_result_from_first(tests, 0, step);
}

proof fn lemma_escape_result_from_first(tests: Seq<bool>, k: nat, step: u64)
    requires
        k <= tests.len(),
        tests.len() <= u64::MAX,
        escape_result_from(tests, k) == (PixelResult::EscapedAt { step }),
    ensures
        k + 1 <= step <= tests.len(),
        tests[step - 1],
        forall|i: int| k <= i < step - 1 ==> !tests[i],
    decreases tests.len() - k,
{
    if k < tests.len() && !tests[k as int] {
        lemma_escape_result_from_first(tests, k + 1, step);
    }
}

} // verus!
