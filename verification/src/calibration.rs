//! The auto-calibration engine. A calibration sweeps a joint into both
//! mechanical end-stops under a lowered torque limit, detecting each stop by
//! a debounced current threshold (or, on revisions without reliable current
//! sensing, a stalled flag), computes a centered offset and symmetric angle
//! limits on the circular tick space, and persists them over a bracketed,
//! read-back-verified EEPROM write. The engine is a pure state machine: the
//! caller performs each returned action on the bus and feeds the outcome
//! back as the next event, so every decision the procedure makes is checked
//! here, while all I/O stays with the caller.

use vstd::prelude::*;
use crate::telemetry::ServoInfo;

verus! {

/// Torque limit applied during a sweep, to bound mechanical stress.
pub const CALIBRATION_TORQUE_LIMIT: u16 = 150;

/// Torque limit restored after calibration.
pub const NORMAL_TORQUE_LIMIT: u16 = 600;

/// Consecutive end-stop samples required on current-sensing revisions.
pub const DEBOUNCE_TICKS: u8 = 3;

/// Consecutive stalled samples required on single-loop revisions.
pub const DEBOUNCE_TICKS_SINGLE_LOOP: u8 = 10;

/// Bounded retries of an all-zero reading before it is trusted.
pub const ZERO_READING_RETRIES: u8 = 3;

/// Bounded attempts of each verified EEPROM limit write.
pub const WRITE_VERIFY_ATTEMPTS: u8 = 3;

/// The result of a completed sweep pair: the centered offset (plain and in
/// its 12-bit sign-magnitude wire encoding) and the symmetric angle limits.
#[derive(Clone, Copy, Debug, PartialEq, Eq, Structural)]
pub struct CalibrationLimits {
    pub min_angle: u16,
    pub max_angle: u16,
    pub offset: i16,
    pub offset_encoded: u16,
}

/// The limit computation on the circular 0..4095 tick space: if the forward
/// extreme sits at or below the backward one, the travel crossed the 0/4095
/// boundary and a full revolution is added; the offset centers the travel on
/// tick 2048 and is normalized into -2048..2048; the new limits are
/// symmetric about 2048. The encoded offset is 12-bit sign-magnitude: the
/// magnitude in the low 11 bits, the sign in bit 11.
pub open spec fn spec_compute_limits(min_pos: int, max_pos: int) -> CalibrationLimits {
    let wrapped = if max_pos <= min_pos { max_pos + 4096 } else { max_pos };
    let half = (wrapped - min_pos) / 2;
    let offset0 = min_pos + half - 2048;
    let offset = if offset0 > 2048 { offset0 - 4096 } else { offset0 };
    CalibrationLimits {
        min_angle: (2048 - half) as u16,
        max_angle: (2048 + half) as u16,
        offset: offset as i16,
        offset_encoded: (if offset < 0 { (-offset) % 2048 + 2048 } else { offset % 2048 }) as u16,
    }
}

/// Computes offset and angle limits from the two recorded extremes.
pub fn compute_limits(min_pos: u16, max_pos: u16) -> (r: CalibrationLimits)
    requires
        min_pos <= 4095,
        max_pos <= 4095,
    ensures
        r == spec_compute_limits(min_pos as int, max_pos as int),
        r.min_angle <= 2048 <= r.max_angle <= 4096,
        -2048 <= r.offset <= 2048,
        r.offset_encoded < 4096,
        ({
            let wrapped = if max_pos <= min_pos { max_pos + 4096 } else { max_pos as int };
            wrapped - min_pos >= 2 ==> r.min_angle < r.max_angle
        }),
{
    let mut wrapped: i32 = max_pos as i32;
    if wrapped <= min_pos as i32 {
        wrapped = wrapped + 4096;
    }
    let half: i32 = (wrapped - min_pos as i32) / 2;
    let offset0: i32 = min_pos as i32 + half - 2048;
    let offset: i32 = if offset0 > 2048 { offset0 - 4096 } else { offset0 };
    let encoded: u16 = if offset < 0 {
        let mag: u16 = (-offset) as u16;
        proof {
            assert(mag <= 2048 ==> ((mag & 0x7FF) | 0x800) == mag % 2048 + 2048) by (bit_vector);
        }
        (mag & 0x7FF) | 0x800
    } else {
        let mag: u16 = offset as u16;
        proof {
            assert((mag & 0x7FF) == mag % 2048) by (bit_vector);
        }
        mag & 0x7FF
    };
    CalibrationLimits {
        min_angle: (2048 - half) as u16,
        max_angle: (2048 + half) as u16,
        offset: offset as i16,
        offset_encoded: encoded,
    }
}

/// The end-stop signal of one reading: on single-loop revisions the servo's
/// moving flag has dropped, elsewhere the current draw exceeds the
/// threshold.
pub open spec fn spec_end_stop(info: ServoInfo, single_loop: bool, threshold: u16) -> bool {
    if single_loop {
        info.mobile_sign == 0
    } else {
        info.current_current > threshold
    }
}

/// Returns whether one reading shows the end-stop signal.
pub fn end_stop_signal(info: &ServoInfo, single_loop: bool, threshold: u16) -> (r: bool)
    ensures
        r == spec_end_stop(*info, single_loop, threshold),
{
    if single_loop {
        info.mobile_sign == 0
    } else {
        info.current_current > threshold
    }
}

/// How many consecutive end-stop samples declare an end-stop, by revision.
pub open spec fn spec_detect_limit(single_loop: bool) -> int {
    if single_loop {
        DEBOUNCE_TICKS_SINGLE_LOOP as int
    } else {
        DEBOUNCE_TICKS as int
    }
}

/// The debounce counter after one sample: an end-stop sample raises it, any
/// other sample resets it to zero.
pub open spec fn spec_debounce_count(count: int, exceeded: bool) -> int {
    if exceeded {
        count + 1
    } else {
        0
    }
}

/// Whether one sample declares the end-stop: only an end-stop sample that
/// completes `limit` consecutive ones does.
pub open spec fn spec_debounce_triggers(count: int, exceeded: bool, limit: int) -> bool {
    exceeded && count + 1 >= limit
}

/// One debounce sample: returns the new counter and whether the end-stop is
/// declared.
pub fn debounce_step(count: u8, exceeded: bool, limit: u8) -> (r: (u8, bool))
    requires
        count < limit,
    ensures
        r.0 == spec_debounce_count(count as int, exceeded),
        r.1 == spec_debounce_triggers(count as int, exceeded, limit as int),
{
    if exceeded {
        (count + 1, count + 1 >= limit)
    } else {
        (0, false)
    }
}

/// The debounce law, at the three-sample limit of current-sensing
/// revisions: starting from a quiet counter, a single spurious end-stop
/// sample followed by below-threshold samples never declares the end-stop
/// and leaves the counter quiet again, while three consecutive end-stop
/// samples declare it exactly on the third.
pub proof fn lemma_debounce()
    ensures
        ({
            let limit = spec_detect_limit(false);
            let after_spurious = spec_debounce_count(0, true);
            &&& !spec_debounce_triggers(0, true, limit)
            &&& !spec_debounce_triggers(after_spurious, false, limit)
            &&& spec_debounce_count(after_spurious, false) == 0
            &&& !spec_debounce_triggers(0, false, limit)
            &&& !spec_debounce_triggers(after_spurious, true, limit)
            &&& spec_debounce_triggers(
                spec_debounce_count(after_spurious, true),
                true,
                limit,
            )
        }),
{
}

/// Which directional pass a sweep is in: the forward pass runs first.
pub const PASS_FORWARD: u8 = 0;

/// Second directional pass of a sweep.
pub const PASS_BACKWARD: u8 = 1;

/// The phase of a calibration.
#[derive(Clone, Copy, Debug, PartialEq, Eq, Structural)]
pub enum CalPhase {
    /// Not started.
    Idle,
    /// Sweeping in the direction of `pass` and sampling for the end-stop.
    Detecting { pass: u8 },
    /// End-stop declared: servo stopped and backed off; awaiting the read
    /// of the extreme position.
    Backoff { pass: u8 },
    /// Between the two passes, letting mechanical oscillation settle.
    Settling,
    /// Limits computed; the bracketed EEPROM write is in flight.
    Writing,
    /// Reading back the limit register `which` (0: min, 1: max), after
    /// `attempts` unsuccessful writes of it.
    Verifying { which: u8, attempts: u8 },
    /// Restoring torque, mode and the telemetry poll.
    Restoring,
    /// Finished; EEPROM holds the new calibration.
    Done,
    /// Cancelled; the servo was stopped and the EEPROM was never written.
    Cancelled,
    /// Failed; the servo was stopped or restored, and the procedure gave
    /// up.
    Error,
}

/// What the caller feeds the engine.
#[derive(Clone, Copy, Debug, PartialEq, Eq, Structural)]
pub enum CalEvent {
    /// Begin the procedure.
    Start,
    /// A detection-tick reading arrived.
    Reading { info: ServoInfo },
    /// A bus exchange failed.
    ReadFailed,
    /// The stop-and-backoff sequence finished; `info` is the extreme read.
    BackoffDone { info: ServoInfo },
    /// The inter-pass pause elapsed.
    Settled,
    /// The calibration write plan was sent.
    WriteDone,
    /// The limit register under verification read back `value`.
    ReadBack { value: u16 },
    /// Torque, mode and telemetry were restored.
    RestoreDone,
    /// The shared cancellation flag was found set.
    Cancel,
}

/// What the caller must do next on the bus.
#[derive(Clone, Copy, Debug, PartialEq, Eq, Structural)]
pub enum CalAction {
    /// The event did not belong to the current phase; nothing to do.
    Nothing,
    /// Disable the telemetry poll, lower the torque limit, set the sweep
    /// mode, and start rotating in the direction of `pass`; then sample.
    BeginSweep { pass: u8 },
    /// Re-read after an all-zero reading.
    RetryRead,
    /// Sleep one detection tick and read again.
    SampleAgain,
    /// Stop the servo, pause, reverse briefly to release stall torque, stop
    /// again, and read the extreme position.
    StopAndBackoff { pass: u8 },
    /// Pause briefly, then begin the backward sweep.
    PauseBetweenPasses,
    /// Stop the servo and run the bracketed EEPROM write of the offset and
    /// both angle limits.
    WriteCalibration { limits: CalibrationLimits },
    /// Read back the limit register `which`.
    VerifyLimit { which: u8 },
    /// Write the limit register `which` again, then read it back again.
    RewriteLimit { which: u8 },
    /// Stop the servo at once.
    StopServo,
    /// Restore the torque limit and position mode and re-enable the
    /// telemetry poll.
    RestoreAndEnable,
    /// Nothing remains to do.
    Finished,
}

/// The calibration engine: inputs, phase, debounce and retry counters, the
/// recorded extremes, and the computed limits.
pub struct CalibrationEngine {
    pub servo_id: u8,
    pub calibration_speed: u16,
    pub current_threshold: u16,
    pub single_loop: bool,
    pub phase: CalPhase,
    pub debounce: u8,
    pub retries: u8,
    pub forward_extreme: u16,
    pub backward_extreme: u16,
    pub limits: CalibrationLimits,
}

impl CalibrationEngine {
    /// The counters stay under their bounds and the recorded extremes stay
    /// on the tick circle.
    pub open spec fn wf(self) -> bool {
        &&& self.debounce < spec_detect_limit(self.single_loop)
        &&& self.retries <= ZERO_READING_RETRIES
        &&& self.forward_extreme <= 4095
        &&& self.backward_extreme <= 4095
        &&& self.phase matches CalPhase::Verifying { which, attempts }
            ==> which <= 1 && attempts < WRITE_VERIFY_ATTEMPTS
    }

    /// Creates an idle engine for one servo.
    pub fn new(servo_id: u8, calibration_speed: u16, current_threshold: u16, single_loop: bool)
        -> (r: CalibrationEngine)
        ensures
            r.wf(),
            r.phase == CalPhase::Idle,
            r.servo_id == servo_id,
            r.calibration_speed == calibration_speed,
            r.current_threshold == current_threshold,
            r.single_loop == single_loop,
    {
        CalibrationEngine {
            servo_id,
            calibration_speed,
            current_threshold,
            single_loop,
            phase: CalPhase::Idle,
            debounce: 0,
            retries: 0,
            forward_extreme: 0,
            backward_extreme: 0,
            limits: CalibrationLimits { min_angle: 0, max_angle: 0, offset: 0, offset_encoded: 0 },
        }
    }
}

/// The transition on a detection-tick reading: an all-zero reading is
/// retried a bounded number of times before it is trusted; then the
/// end-stop signal runs through the debounce, and only the sample that
/// completes the required consecutive run stops the sweep.
pub open spec fn spec_detect_step(e: CalibrationEngine, pass: u8, info: ServoInfo)
    -> (CalibrationEngine, CalAction) {
    if info.spec_is_all_zero() && e.retries < ZERO_READING_RETRIES {
        (
            CalibrationEngine { retries: (e.retries + 1) as u8, ..e },
            CalAction::RetryRead,
        )
    } else {
        let exceeded = spec_end_stop(info, e.single_loop, e.current_threshold);
        let limit = spec_detect_limit(e.single_loop);
        if spec_debounce_triggers(e.debounce as int, exceeded, limit) {
            (
                CalibrationEngine {
                    phase: CalPhase::Backoff { pass },
                    debounce: 0,
                    retries: 0,
                    ..e
                },
                CalAction::StopAndBackoff { pass },
            )
        } else {
            (
                CalibrationEngine {
                    debounce: spec_debounce_count(e.debounce as int, exceeded) as u8,
                    retries: 0,
                    ..e
                },
                CalAction::SampleAgain,
            )
        }
    }
}

/// The transition on the extreme read after a backoff: a position off the
/// tick circle fails the procedure; the forward extreme leads into the
/// settle pause, the backward extreme completes the sweep pair and computes
/// the limits.
pub open spec fn spec_record_extreme(e: CalibrationEngine, pass: u8, info: ServoInfo)
    -> (CalibrationEngine, CalAction) {
    if info.current_location < 0 || info.current_location > 4095 {
        (
            CalibrationEngine { phase: CalPhase::Error, ..e },
            CalAction::StopServo,
        )
    } else if pass == PASS_FORWARD {
        (
            CalibrationEngine {
                phase: CalPhase::Settling,
                forward_extreme: info.current_location as u16,
                ..e
            },
            CalAction::PauseBetweenPasses,
        )
    } else {
        let limits = spec_compute_limits(info.current_location as int, e.forward_extreme as int);
        (
            CalibrationEngine {
                phase: CalPhase::Writing,
                backward_extreme: info.current_location as u16,
                limits,
                ..e
            },
            CalAction::WriteCalibration { limits },
        )
    }
}

/// The transition on a read-back of the limit register under verification:
/// a matching read-back moves on, a mismatch rewrites the register up to
/// the bounded number of attempts, and then the procedure fails, still
/// restoring the servo to a safe state.
pub open spec fn spec_verify_step(e: CalibrationEngine, which: u8, attempts: u8, value: u16)
    -> (CalibrationEngine, CalAction) {
    let expected = if which == 0 {
        e.limits.min_angle
    } else {
        e.limits.max_angle
    };
    if value == expected {
        if which == 0 {
            (
                CalibrationEngine { phase: CalPhase::Verifying { which: 1, attempts: 0 }, ..e },
                CalAction::VerifyLimit { which: 1 },
            )
        } else {
            (
                CalibrationEngine { phase: CalPhase::Restoring, ..e },
                CalAction::RestoreAndEnable,
            )
        }
    } else if attempts + 1 < WRITE_VERIFY_ATTEMPTS {
        (
            CalibrationEngine {
                phase: CalPhase::Verifying { which, attempts: (attempts + 1) as u8 },
                ..e
            },
            CalAction::RewriteLimit { which },
        )
    } else {
        (
            CalibrationEngine { phase: CalPhase::Error, ..e },
            CalAction::RestoreAndEnable,
        )
    }
}

/// The whole transition relation of the engine. Cancellation wins over
/// every phase except the terminal ones: the servo is stopped at once and
/// the EEPROM is never written. A bus failure fails the procedure. An event
/// that does not belong to the current phase changes nothing.
pub open spec fn spec_cal_step(e: CalibrationEngine, event: CalEvent)
    -> (CalibrationEngine, CalAction) {
    if event == CalEvent::Cancel {
        if e.phase == CalPhase::Done || e.phase == CalPhase::Cancelled || e.phase == CalPhase::Error {
            (e, CalAction::Nothing)
        } else {
            (CalibrationEngine { phase: CalPhase::Cancelled, ..e }, CalAction::StopServo)
        }
    } else if event == CalEvent::ReadFailed {
        if e.phase == CalPhase::Done || e.phase == CalPhase::Cancelled || e.phase == CalPhase::Error
            || e.phase == CalPhase::Idle {
            (e, CalAction::Nothing)
        } else {
            (CalibrationEngine { phase: CalPhase::Error, ..e }, CalAction::StopServo)
        }
    } else {
        match e.phase {
            CalPhase::Idle => {
                if event == CalEvent::Start {
                    (
                        CalibrationEngine {
                            phase: CalPhase::Detecting { pass: PASS_FORWARD },
                            debounce: 0,
                            retries: 0,
                            ..e
                        },
                        CalAction::BeginSweep { pass: PASS_FORWARD },
                    )
                } else {
                    (e, CalAction::Nothing)
                }
            },
            CalPhase::Detecting { pass } => {
                match event {
                    CalEvent::Reading { info } => spec_detect_step(e, pass, info),
                    _ => (e, CalAction::Nothing),
                }
            },
            CalPhase::Backoff { pass } => {
                match event {
                    CalEvent::BackoffDone { info } => spec_record_extreme(e, pass, info),
                    _ => (e, CalAction::Nothing),
                }
            },
            CalPhase::Settling => {
                if event == CalEvent::Settled {
                    (
                        CalibrationEngine {
                            phase: CalPhase::Detecting { pass: PASS_BACKWARD },
                            debounce: 0,
                            retries: 0,
                            ..e
                        },
                        CalAction::BeginSweep { pass: PASS_BACKWARD },
                    )
                } else {
                    (e, CalAction::Nothing)
                }
            },
            CalPhase::Writing => {
                if event == CalEvent::WriteDone {
                    (
                        CalibrationEngine { phase: CalPhase::Verifying { which: 0, attempts: 0 }, ..e },
                        CalAction::VerifyLimit { which: 0 },
                    )
                } else {
                    (e, CalAction::Nothing)
                }
            },
            CalPhase::Verifying { which, attempts } => {
                match event {
                    CalEvent::ReadBack { value } => spec_verify_step(e, which, attempts, value),
                    _ => (e, CalAction::Nothing),
                }
            },
            CalPhase::Restoring => {
                if event == CalEvent::RestoreDone {
                    (CalibrationEngine { phase: CalPhase::Done, ..e }, CalAction::Finished)
                } else {
                    (e, CalAction::Nothing)
                }
            },
            CalPhase::Done => (e, CalAction::Nothing),
            CalPhase::Cancelled => (e, CalAction::Nothing),
            CalPhase::Error => (e, CalAction::Nothing),
        }
    }
}

impl CalibrationEngine {
    /// Feeds one event to the engine and returns the action the caller must
    /// perform next.
    pub fn step(&mut self, event: CalEvent) -> (action: CalAction)
        requires
            old(self).wf(),
        ensures
            final(self).wf(),
            *final(self) == spec_cal_step(*old(self), event).0,
            action == spec_cal_step(*old(self), event).1,
    {
        match event {
            CalEvent::Cancel => {
                match self.phase {
                    CalPhase::Done | CalPhase::Cancelled | CalPhase::Error => CalAction::Nothing,
                    _ => {
                        self.phase = CalPhase::Cancelled;
                        CalAction::StopServo
                    },
                }
            },
            CalEvent::ReadFailed => {
                match self.phase {
                    CalPhase::Done | CalPhase::Cancelled | CalPhase::Error | CalPhase::Idle =>
                        CalAction::Nothing,
                    _ => {
                        self.phase = CalPhase::Error;
                        CalAction::StopServo
                    },
                }
            },
            CalEvent::Start => {
                match self.phase {
                    CalPhase::Idle => {
                        self.phase = CalPhase::Detecting { pass: PASS_FORWARD };
                        self.debounce = 0;
                        self.retries = 0;
                        CalAction::BeginSweep { pass: PASS_FORWARD }
                    },
                    _ => CalAction::Nothing,
                }
            },
            CalEvent::Reading { info } => {
                match self.phase {
                    CalPhase::Detecting { pass } => {
                        if info.is_all_zero() && self.retries < ZERO_READING_RETRIES {
                            self.retries = self.retries + 1;
                            CalAction::RetryRead
                        } else {
                            let limit: u8 = if self.single_loop {
                                DEBOUNCE_TICKS_SINGLE_LOOP
                            } else {
                                DEBOUNCE_TICKS
                            };
                            let exceeded = end_stop_signal(&info, self.single_loop, self.current_threshold);
                            let (count, triggered) = debounce_step(self.debounce, exceeded, limit);
                            if triggered {
                                self.phase = CalPhase::Backoff { pass };
                                self.debounce = 0;
                                self.retries = 0;
                                CalAction::StopAndBackoff { pass }
                            } else {
                                self.debounce = count;
                                self.retries = 0;
                                CalAction::SampleAgain
                            }
                        }
                    },
                    _ => CalAction::Nothing,
                }
            },
            CalEvent::BackoffDone { info } => {
                match self.phase {
                    CalPhase::Backoff { pass } => {
                        if info.current_location < 0 || info.current_location > 4095 {
                            self.phase = CalPhase::Error;
                            CalAction::StopServo
                        } else if pass == PASS_FORWARD {
                            self.phase = CalPhase::Settling;
                            self.forward_extreme = info.current_location as u16;
                            CalAction::PauseBetweenPasses
                        } else {
                            let limits = compute_limits(info.current_location as u16, self.forward_extreme);
                            self.phase = CalPhase::Writing;
                            self.backward_extreme = info.current_location as u16;
                            self.limits = limits;
                            CalAction::WriteCalibration { limits }
                        }
                    },
                    _ => CalAction::Nothing,
                }
            },
            CalEvent::Settled => {
                match self.phase {
                    CalPhase::Settling => {
                        self.phase = CalPhase::Detecting { pass: PASS_BACKWARD };
                        self.debounce = 0;
                        self.retries = 0;
                        CalAction::BeginSweep { pass: PASS_BACKWARD }
                    },
                    _ => CalAction::Nothing,
                }
            },
            CalEvent::WriteDone => {
                match self.phase {
                    CalPhase::Writing => {
                        self.phase = CalPhase::Verifying { which: 0, attempts: 0 };
                        CalAction::VerifyLimit { which: 0 }
                    },
                    _ => CalAction::Nothing,
                }
            },
            CalEvent::ReadBack { value } => {
                match self.phase {
                    CalPhase::Verifying { which, attempts } => {
                        let expected = if which == 0 {
                            self.limits.min_angle
                        } else {
                            self.limits.max_angle
                        };
                        if value == expected {
                            if which == 0 {
                                self.phase = CalPhase::Verifying { which: 1, attempts: 0 };
                                CalAction::VerifyLimit { which: 1 }
                            } else {
                                self.phase = CalPhase::Restoring;
                                CalAction::RestoreAndEnable
                            }
                        } else if attempts + 1 < WRITE_VERIFY_ATTEMPTS {
                            self.phase = CalPhase::Verifying { which, attempts: attempts + 1 };
                            CalAction::RewriteLimit { which }
                        } else {
                            self.phase = CalPhase::Error;
                            CalAction::RestoreAndEnable
                        }
                    },
                    _ => CalAction::Nothing,
                }
            },
            CalEvent::RestoreDone => {
                match self.phase {
                    CalPhase::Restoring => {
                        self.phase = CalPhase::Done;
                        CalAction::Finished
                    },
                    _ => CalAction::Nothing,
                }
            },
        }
    }
}

/// Cancellation is honoured within one detection tick: from every
/// non-terminal phase the cancel event stops the servo at once and parks
/// the engine in the cancelled phase, from which no event ever changes the
/// state again or asks for an EEPROM write, so the calibration previously
/// in EEPROM stays intact.
pub proof fn lemma_cancel_stops_and_preserves_eeprom(e: CalibrationEngine, later: CalEvent)
    requires
        e.phase != CalPhase::Done,
        e.phase != CalPhase::Cancelled,
        e.phase != CalPhase::Error,
    ensures
        spec_cal_step(e, CalEvent::Cancel).0.phase == CalPhase::Cancelled,
        spec_cal_step(e, CalEvent::Cancel).1 == CalAction::StopServo,
        spec_cal_step(spec_cal_step(e, CalEvent::Cancel).0, later).0
            == spec_cal_step(e, CalEvent::Cancel).0,
        spec_cal_step(spec_cal_step(e, CalEvent::Cancel).0, later).1 == CalAction::Nothing,
{
}

/// Whether an action writes calibration data to the EEPROM.
pub open spec fn spec_action_writes_eeprom(action: CalAction) -> bool {
    action matches CalAction::WriteCalibration { .. }
        || action matches CalAction::RewriteLimit { .. }
}

/// Before the backward extreme is recorded the engine never asks for an
/// EEPROM write, so cancelling anywhere in the sweep leaves the EEPROM
/// untouched.
pub proof fn lemma_no_eeprom_write_while_sweeping(e: CalibrationEngine, event: CalEvent)
    requires
        e.phase matches CalPhase::Detecting { .. }
            || e.phase == CalPhase::Idle
            || e.phase == CalPhase::Settling
            || (e.phase matches CalPhase::Backoff { pass } && pass == PASS_FORWARD),
    ensures
        !spec_action_writes_eeprom(spec_cal_step(e, event).1),
{
}

/// Outcome of asking to start a calibration.
#[derive(Clone, Copy, Debug, PartialEq, Eq, Structural)]
pub enum StartOutcome {
    /// The calibration was accepted and now owns the bus.
    Accepted,
    /// Another calibration is in flight; nothing was changed or queued.
    Busy,
}

/// Outcome of asking to cancel a calibration.
#[derive(Clone, Copy, Debug, PartialEq, Eq, Structural)]
pub enum CancelOutcome {
    /// The running calibration was told to stop.
    Cancelled,
    /// No calibration was running.
    NotRunning,
}

/// The system-wide single-flight guard: at most one calibration may run at
/// a time, since a calibration monopolizes the shared half-duplex bus.
pub struct CalibrationSession {
    pub running: bool,
    pub servo_id: u8,
}

impl CalibrationSession {
    /// Creates the guard with no calibration in flight.
    pub fn new() -> (r: CalibrationSession)
        ensures
            !r.running,
    {
        CalibrationSession { running: false, servo_id: 0 }
    }

    /// Asks to start a calibration on `servo_id`: accepted only while no
    /// other calibration is in flight, and a refusal changes nothing.
    pub fn start(&mut self, servo_id: u8) -> (r: StartOutcome)
        ensures
            old(self).running ==> r == StartOutcome::Busy && *final(self) == *old(self),
            !old(self).running ==> r == StartOutcome::Accepted
                && final(self).running && final(self).servo_id == servo_id,
    {
        if self.running {
            StartOutcome::Busy
        } else {
            self.running = true;
            self.servo_id = servo_id;
            StartOutcome::Accepted
        }
    }

    /// Asks to cancel the running calibration: succeeds exactly when one is
    /// in flight, after which none is.
    pub fn cancel(&mut self) -> (r: CancelOutcome)
        ensures
            old(self).running ==> r == CancelOutcome::Cancelled && !final(self).running,
            !old(self).running ==> r == CancelOutcome::NotRunning && *final(self) == *old(self),
            !final(self).running,
    {
        if self.running {
            self.running = false;
            CancelOutcome::Cancelled
        } else {
            CancelOutcome::NotRunning
        }
    }

    /// Records that the running calibration finished on its own.
    pub fn finish(&mut self)
        ensures
            !final(self).running,
    {
        self.running = false;
    }

    /// Returns whether a calibration is in flight, and on which servo.
    pub fn status(&self) -> (r: (bool, u8))
        ensures
            r.0 == self.running,
            r.1 == self.servo_id,
    {
        (self.running, self.servo_id)
    }
}

/// One row of the append-only calibration audit log. The operationally
/// binding result lives in the servo's own EEPROM; these rows are kept for
/// audit.
#[derive(Clone, Copy, Debug, PartialEq, Eq, Structural)]
pub struct CalibrationRecord {
    pub servo_id: u8,
    pub iteration: u32,
    pub min_angle: i32,
    pub max_angle: i32,
    pub min_position: i32,
    pub max_position: i32,
}

} // verus!
