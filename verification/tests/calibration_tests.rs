use servobus::calibration::{
    compute_limits, debounce_step, CalAction, CalEvent, CalPhase, CalibrationEngine,
    CalibrationLimits, CalibrationSession, CancelOutcome, StartOutcome, DEBOUNCE_TICKS,
};
use servobus::telemetry::ServoInfo;

fn reading(current: u16, location: i16) -> ServoInfo {
    let mut info = ServoInfo::empty();
    info.current_current = current;
    info.current_location = location;
    info.mobile_sign = 1;
    info
}

#[test]
fn wraparound_limits() {
    // The travel crosses the 4095/0 boundary: min_pos above max_pos.
    let l = compute_limits(3800, 300);
    assert!(l.max_angle > l.min_angle);
    assert!(-2047 <= l.offset && l.offset <= 2047);
    assert_eq!(l.min_angle, 1750);
    assert_eq!(l.max_angle, 2346);
    assert_eq!(l.offset, -2046);
    // Sign-magnitude: bit 11 set, magnitude 2046.
    assert_eq!(l.offset_encoded, 0x800 | 2046);
}

#[test]
fn plain_limits_without_wraparound() {
    // min_pos 1000, max_pos 3000: offset = 1000 + 1000 - 2048 = -48.
    let l = compute_limits(1000, 3000);
    assert_eq!(l.offset, -48);
    assert_eq!(l.offset_encoded, 0x800 | 48);
    assert_eq!(l.min_angle, 2048 - 1000);
    assert_eq!(l.max_angle, 2048 + 1000);
}

#[test]
fn offset_encoding_positive() {
    // min_pos 2000, max_pos 3000: offset = 2000 + 500 - 2048 = 452.
    let l = compute_limits(2000, 3000);
    assert_eq!(l.offset, 452);
    assert_eq!(l.offset_encoded, 452);
}

#[test]
fn equal_extremes_treated_as_wraparound() {
    // max_pos == min_pos counts as a full revolution of travel.
    let l = compute_limits(2048, 2048);
    assert_eq!(l.min_angle, 0);
    assert_eq!(l.max_angle, 4096);
    assert_eq!(l.offset, 2048);
}

#[test]
fn debounce_single_spurious_sample_does_not_trigger() {
    let limit = DEBOUNCE_TICKS;
    let (c1, t1) = debounce_step(0, true, limit);
    assert!(!t1);
    let (c2, t2) = debounce_step(c1, false, limit);
    assert!(!t2);
    assert_eq!(c2, 0);
    let (_, t3) = debounce_step(c2, false, limit);
    assert!(!t3);
}

#[test]
fn debounce_three_consecutive_samples_trigger() {
    let limit = DEBOUNCE_TICKS;
    let (c1, t1) = debounce_step(0, true, limit);
    let (c2, t2) = debounce_step(c1, true, limit);
    let (_, t3) = debounce_step(c2, true, limit);
    assert!(!t1 && !t2);
    assert!(t3);
}

#[test]
fn engine_debounces_spurious_sample() {
    let mut e = CalibrationEngine::new(1, 150, 200, false);
    assert_eq!(e.step(CalEvent::Start), CalAction::BeginSweep { pass: 0 });
    // One spurious over-threshold reading, then two quiet ones: the sweep
    // goes on sampling.
    assert_eq!(e.step(CalEvent::Reading { info: reading(500, 100) }), CalAction::SampleAgain);
    assert_eq!(e.step(CalEvent::Reading { info: reading(10, 110) }), CalAction::SampleAgain);
    assert_eq!(e.step(CalEvent::Reading { info: reading(10, 120) }), CalAction::SampleAgain);
    assert!(matches!(e.phase, CalPhase::Detecting { pass: 0 }));
    assert_eq!(e.debounce, 0);
}

#[test]
fn engine_detects_after_three_consecutive_samples() {
    let mut e = CalibrationEngine::new(1, 150, 200, false);
    e.step(CalEvent::Start);
    assert_eq!(e.step(CalEvent::Reading { info: reading(500, 100) }), CalAction::SampleAgain);
    assert_eq!(e.step(CalEvent::Reading { info: reading(500, 105) }), CalAction::SampleAgain);
    assert_eq!(
        e.step(CalEvent::Reading { info: reading(500, 110) }),
        CalAction::StopAndBackoff { pass: 0 }
    );
    assert!(matches!(e.phase, CalPhase::Backoff { pass: 0 }));
}

#[test]
fn engine_retries_all_zero_readings() {
    let mut e = CalibrationEngine::new(1, 150, 200, false);
    e.step(CalEvent::Start);
    let zero = ServoInfo::empty();
    assert_eq!(e.step(CalEvent::Reading { info: zero }), CalAction::RetryRead);
    assert_eq!(e.step(CalEvent::Reading { info: zero }), CalAction::RetryRead);
    assert_eq!(e.step(CalEvent::Reading { info: zero }), CalAction::RetryRead);
    // The fourth all-zero reading is trusted; zero current is below the
    // threshold, so the sweep goes on.
    assert_eq!(e.step(CalEvent::Reading { info: zero }), CalAction::SampleAgain);
}

fn run_sweeps(e: &mut CalibrationEngine, forward_pos: i16, backward_pos: i16) -> CalibrationLimits {
    assert_eq!(e.step(CalEvent::Start), CalAction::BeginSweep { pass: 0 });
    for _ in 0..2 {
        assert_eq!(e.step(CalEvent::Reading { info: reading(500, 0) }), CalAction::SampleAgain);
    }
    assert_eq!(
        e.step(CalEvent::Reading { info: reading(500, 0) }),
        CalAction::StopAndBackoff { pass: 0 }
    );
    assert_eq!(
        e.step(CalEvent::BackoffDone { info: reading(10, forward_pos) }),
        CalAction::PauseBetweenPasses
    );
    assert_eq!(e.step(CalEvent::Settled), CalAction::BeginSweep { pass: 1 });
    for _ in 0..2 {
        assert_eq!(e.step(CalEvent::Reading { info: reading(500, 0) }), CalAction::SampleAgain);
    }
    assert_eq!(
        e.step(CalEvent::Reading { info: reading(500, 0) }),
        CalAction::StopAndBackoff { pass: 1 }
    );
    match e.step(CalEvent::BackoffDone { info: reading(10, backward_pos) }) {
        CalAction::WriteCalibration { limits } => limits,
        other => panic!("expected the calibration write, got {:?}", other),
    }
}

#[test]
fn engine_full_run_writes_and_verifies() {
    let mut e = CalibrationEngine::new(2, 150, 200, false);
    let limits = run_sweeps(&mut e, 300, 3800);
    // min_pos is the backward extreme, max_pos the forward one.
    assert_eq!(limits, compute_limits(3800, 300));
    assert_eq!(e.step(CalEvent::WriteDone), CalAction::VerifyLimit { which: 0 });
    assert_eq!(
        e.step(CalEvent::ReadBack { value: limits.min_angle }),
        CalAction::VerifyLimit { which: 1 }
    );
    assert_eq!(
        e.step(CalEvent::ReadBack { value: limits.max_angle }),
        CalAction::RestoreAndEnable
    );
    assert_eq!(e.step(CalEvent::RestoreDone), CalAction::Finished);
    assert_eq!(e.phase, CalPhase::Done);
}

#[test]
fn engine_gives_up_after_three_failed_verifies() {
    let mut e = CalibrationEngine::new(2, 150, 200, false);
    let limits = run_sweeps(&mut e, 300, 3800);
    assert_ne!(limits.min_angle, 9999 % 4096);
    e.step(CalEvent::WriteDone);
    assert_eq!(e.step(CalEvent::ReadBack { value: 1 }), CalAction::RewriteLimit { which: 0 });
    assert_eq!(e.step(CalEvent::ReadBack { value: 1 }), CalAction::RewriteLimit { which: 0 });
    // The third mismatch exhausts the attempts: the procedure fails but
    // still restores the servo to a safe state.
    assert_eq!(e.step(CalEvent::ReadBack { value: 1 }), CalAction::RestoreAndEnable);
    assert_eq!(e.phase, CalPhase::Error);
}

#[test]
fn cancellation_stops_within_one_tick_and_never_writes() {
    let mut e = CalibrationEngine::new(2, 150, 200, false);
    e.step(CalEvent::Start);
    let mut wrote = false;
    for _ in 0..2 {
        let action = e.step(CalEvent::Reading { info: reading(500, 0) });
        wrote = wrote || matches!(action, CalAction::WriteCalibration { .. });
    }
    // The shared flag is polled every tick: the very next event is the
    // cancellation, and the servo is stopped at once.
    assert_eq!(e.step(CalEvent::Cancel), CalAction::StopServo);
    assert_eq!(e.phase, CalPhase::Cancelled);
    // Nothing the bus reports afterwards wakes the engine or writes EEPROM.
    for event in [
        CalEvent::Reading { info: reading(500, 0) },
        CalEvent::WriteDone,
        CalEvent::ReadBack { value: 0 },
        CalEvent::Settled,
    ] {
        let action = e.step(event);
        assert_eq!(action, CalAction::Nothing);
        wrote = wrote || matches!(action, CalAction::WriteCalibration { .. });
    }
    assert!(!wrote);
    assert_eq!(e.phase, CalPhase::Cancelled);
}

#[test]
fn read_failure_mid_sweep_fails_safely() {
    let mut e = CalibrationEngine::new(2, 150, 200, false);
    e.step(CalEvent::Start);
    assert_eq!(e.step(CalEvent::ReadFailed), CalAction::StopServo);
    assert_eq!(e.phase, CalPhase::Error);
}

#[test]
fn single_loop_revision_uses_stall_flag() {
    let mut e = CalibrationEngine::new(2, 150, 200, true);
    e.step(CalEvent::Start);
    // On the single-loop revision the current reading is irrelevant; the
    // stalled flag must hold for ten consecutive ticks.
    let mut stalled = reading(0, 50);
    stalled.mobile_sign = 0;
    for _ in 0..9 {
        assert_eq!(e.step(CalEvent::Reading { info: stalled }), CalAction::SampleAgain);
    }
    assert_eq!(
        e.step(CalEvent::Reading { info: stalled }),
        CalAction::StopAndBackoff { pass: 0 }
    );
}

#[test]
fn calibration_busy_while_another_runs() {
    // Starting calibration on servo 2 while servo 5's calibration is in
    // flight returns busy and leaves servo 5's session untouched.
    let mut session = CalibrationSession::new();
    assert_eq!(session.start(5), StartOutcome::Accepted);
    assert_eq!(session.status(), (true, 5));
    assert_eq!(session.start(2), StartOutcome::Busy);
    assert_eq!(session.status(), (true, 5));
}

#[test]
fn cancel_session_only_when_running() {
    let mut session = CalibrationSession::new();
    assert_eq!(session.cancel(), CancelOutcome::NotRunning);
    session.start(7);
    assert_eq!(session.cancel(), CancelOutcome::Cancelled);
    assert_eq!(session.status().0, false);
    assert_eq!(session.cancel(), CancelOutcome::NotRunning);
}
