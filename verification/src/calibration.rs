//! The calibration retry policy: calibrate, validate, and on any failure
//! clear the scratch buffer, wait a fixed short delay, and try again —
//! indefinitely, until one attempt produces a valid result.
//!
//! The sensor work itself happens outside; this module decides, from each
//! attempt's outcome, whether to accept it or retry, and fixes the retry
//! side effects so no attempt sees stale data from the one before.

use vstd::prelude::*;

verus! {

/// Delay between calibration attempts, in milliseconds.
pub const RETRY_DELAY_MS: u64 = 1;

/// The outcome of one calibration attempt as the sensor driver reports it.
#[derive(Clone, Copy, PartialEq, Eq, Structural, Debug)]
pub enum CalibrationAttempt {
    /// The calibrate operation itself failed.
    CalibrateFailed,
    /// Calibration completed but its result did not validate.
    ResultInvalid,
    /// Calibration completed and the result validated.
    ResultValid,
}

/// What the loop does after one attempt: accept the result, or clear the
/// scratch buffer, wait, and try again.
#[derive(Clone, Copy, PartialEq, Eq, Structural, Debug)]
pub enum CalibrationDecision {
    /// Keep this attempt's result and move on to preparing the sensor.
    Accept,
    /// Discard the attempt; the buffer must be cleared and the fixed delay
    /// observed before the next attempt.
    Retry { clear_scratch: bool, delay_ms: u64 },
}

/// Decides the loop's next move from one attempt's outcome: accept exactly
/// the valid result, retry — with the scratch buffer cleared and the fixed
/// delay — on anything else.
pub fn calibration_decision(outcome: &CalibrationAttempt) -> (r: CalibrationDecision)
    ensures
        r is Accept <==> outcome is ResultValid,
        r matches CalibrationDecision::Retry { clear_scratch, delay_ms }
            ==> clear_scratch && delay_ms == RETRY_DELAY_MS,
{
    match outcome {
        CalibrationAttempt::ResultValid => CalibrationDecision::Accept,
        _ => CalibrationDecision::Retry { clear_scratch: true, delay_ms: RETRY_DELAY_MS },
    }
}

/// Runs the calibration loop against a transcript of attempt outcomes, one
/// per attempt in order, and returns the number of attempts performed:
/// `Some(n)` means attempt `n` (one-based) was the first valid one and was
/// accepted; `None` means no attempt in the transcript validated, so the
/// loop is still running when the transcript ends. A driver that fails `n`
/// times and then succeeds thus costs exactly `n + 1` attempts.
pub fn run_calibration(outcomes: &Vec<CalibrationAttempt>) -> (r: Option<usize>)
    ensures
        r is Some <==> exists|j: int|
            0 <= j < outcomes@.len() && outcomes@[j] is ResultValid,
        r matches Some(n) ==> {
            &&& 1 <= n <= outcomes@.len()
            &&& outcomes@[n - 1] is ResultValid
            &&& forall|j: int| 0 <= j < n - 1 ==> !(outcomes@[j] is ResultValid)
        },
{
    let mut i: usize = 0;
    while i < outcomes.len()
        invariant
            0 <= i <= outcomes@.len(),
            forall|j: int| 0 <= j < i ==> !(outcomes@[j] is ResultValid),
        decreases outcomes@.len() - i,
    {
        let decision = calibration_decision(&outcomes[i]);
        match decision {
            CalibrationDecision::Accept => {
                return Some(i + 1);
            }
            CalibrationDecision::Retry { .. } => {}
        }
        i += 1;
    }
    None
}

} // verus!
