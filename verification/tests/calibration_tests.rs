use ranging_beacon::calibration::{
    calibration_decision, run_calibration, CalibrationAttempt, CalibrationDecision,
    RETRY_DELAY_MS,
};

#[test]
fn valid_result_is_accepted() {
    assert_eq!(
        calibration_decision(&CalibrationAttempt::ResultValid),
        CalibrationDecision::Accept
    );
}

#[test]
fn failures_retry_with_cleared_buffer_and_fixed_delay() {
    for outcome in [CalibrationAttempt::CalibrateFailed, CalibrationAttempt::ResultInvalid] {
        match calibration_decision(&outcome) {
            CalibrationDecision::Retry { clear_scratch, delay_ms } => {
                assert!(clear_scratch);
                assert_eq!(delay_ms, RETRY_DELAY_MS);
            }
            CalibrationDecision::Accept => panic!("a failed attempt must not be accepted"),
        }
    }
}

#[test]
fn two_failures_then_success_takes_three_attempts() {
    let outcomes = vec![
        CalibrationAttempt::CalibrateFailed,
        CalibrationAttempt::ResultInvalid,
        CalibrationAttempt::ResultValid,
    ];
    assert_eq!(run_calibration(&outcomes), Some(3));
}

#[test]
fn immediate_success_takes_one_attempt() {
    assert_eq!(run_calibration(&vec![CalibrationAttempt::ResultValid]), Some(1));
}

#[test]
fn n_failures_then_success_takes_n_plus_one_attempts() {
    for n in 0..20 {
        let mut outcomes = vec![CalibrationAttempt::CalibrateFailed; n];
        outcomes.push(CalibrationAttempt::ResultValid);
        assert_eq!(run_calibration(&outcomes), Some(n + 1));
    }
}

#[test]
fn a_driver_that_never_succeeds_never_finishes() {
    let outcomes = vec![CalibrationAttempt::ResultInvalid; 50];
    assert_eq!(run_calibration(&outcomes), None);
}

#[test]
fn attempts_after_the_first_success_are_not_consumed() {
    let outcomes = vec![
        CalibrationAttempt::ResultInvalid,
        CalibrationAttempt::ResultValid,
        CalibrationAttempt::CalibrateFailed,
        CalibrationAttempt::ResultValid,
    ];
    assert_eq!(run_calibration(&outcomes), Some(2));
}
