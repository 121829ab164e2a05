//! One periodic sampling pipeline as a state machine: a function of the
//! pipeline's own state, the current time and the outcome of one device read,
//! to its next state and the log event it emits. Every policy of the reporting
//! loop lives here: the first read fires with no initial delay and later reads
//! wait a full period; the gyroscope calibrates before it reports and aborts
//! for good when a calibration read fails; a transient fault on an ordinary
//! pipeline is logged and the loop goes on; a read failure on the clock
//! pipeline, once the device holds a successfully set date-time, stops that
//! pipeline alone, permanently.

use crate::calib::{
    calib_step, Axes, AxesI32, Calibrator, CAL_DELAY_MS, CAL_SAMPLE_COUNT,
};
use crate::clock::DateTime;
use crate::errors::Fault;
use vstd::prelude::*;

verus! {

/// The longest period any pipeline may be configured with, in milliseconds
/// (one day). Keeping periods below this lets the scheduler's clock arithmetic
/// stay clear of the top of `u64`.
pub const MAX_PERIOD_MS: u64 = 86400000;

/// One reported metric, one pipeline.
#[derive(Clone, Copy, PartialEq, Eq, Structural, Debug)]
pub enum PipelineKind {
    Magnetometer,
    Accelerometer,
    MagTemperature,
    GyroTemperature,
    Gyroscope,
    Clock,
}

/// A raw value handed back by one successful device read.
#[derive(Clone, Copy, PartialEq, Eq, Structural, Debug)]
pub enum Sample {
    /// Raw gyroscope rate, in the device's signed 16-bit units.
    GyroRate(Axes),
    /// Magnetic field, in nanoteslas.
    Field { x: i32, y: i32, z: i32 },
    /// Acceleration, in milli-g.
    Acceleration { x: i32, y: i32, z: i32 },
    /// A temperature channel, in degrees Celsius.
    Celsius(i16),
    /// The clock's date-time.
    Moment(DateTime),
}

/// What one device read came back with.
pub type DeviceResponse = Result<Sample, Fault>;

/// The decoded physical value a pipeline reports.
#[derive(Clone, Copy, PartialEq, Eq, Structural, Debug)]
pub enum Reading {
    /// Bias-corrected gyroscope rate; widened so the correction cannot wrap.
    Angular(AxesI32),
    Field { x: i32, y: i32, z: i32 },
    Acceleration { x: i32, y: i32, z: i32 },
    Celsius(i16),
    Moment(DateTime),
}

/// Which sample shape each pipeline's device produces.
pub open spec fn sample_fits(kind: PipelineKind, s: Sample) -> bool {
    match kind {
        PipelineKind::Magnetometer => s is Field,
        PipelineKind::Accelerometer => s is Acceleration,
        PipelineKind::MagTemperature => s is Celsius,
        PipelineKind::GyroTemperature => s is Celsius,
        PipelineKind::Gyroscope => s is GyroRate,
        PipelineKind::Clock => s is Moment,
    }
}

/// Which fault family each pipeline's transport reports.
pub open spec fn fault_fits(kind: PipelineKind, f: Fault) -> bool {
    match kind {
        PipelineKind::Magnetometer => f is Mag,
        PipelineKind::Accelerometer => f is Mag,
        PipelineKind::MagTemperature => f is Mag,
        PipelineKind::GyroTemperature => f is Spi,
        PipelineKind::Gyroscope => f is Spi,
        PipelineKind::Clock => f is RtcComm,
    }
}

pub open spec fn response_fits(kind: PipelineKind, r: DeviceResponse) -> bool {
    match r {
        Ok(s) => sample_fits(kind, s),
        Err(f) => fault_fits(kind, f),
    }
}

/// Where a pipeline stands between two of its activations.
#[derive(Clone, Copy, PartialEq, Eq, Structural, Debug)]
pub enum Phase {
    /// The gyroscope's one-time bias estimation is still consuming samples.
    Calibrating(Calibrator),
    /// The reporting loop, carrying the bias offset in force (zero for every
    /// pipeline but the gyroscope).
    Reporting(Axes),
    /// The pipeline runs no more: its calibration aborted, its clock read
    /// failed fatally, or it degraded at startup.
    Halted,
}

/// One pipeline as the scheduler sees it.
#[derive(Clone, Copy, PartialEq, Eq, Structural, Debug)]
pub struct Task {
    pub kind: PipelineKind,
    /// Fixed for the pipeline's whole lifetime.
    pub period_ms: u64,
    /// The earliest instant the pipeline's next read may fire.
    pub next_due: u64,
    /// Whether the clock device's date-time was successfully set at startup.
    /// Only the clock pipeline reads it: a clock read failure is interpreted
    /// as fatal only once a valid date-time is in the device; before that it
    /// stays a transient failure. Fixed at spawn; false for every other
    /// pipeline.
    pub datetime_set: bool,
    pub phase: Phase,
}

pub open spec fn task_wf(t: Task) -> bool {
    &&& 1 <= t.period_ms <= MAX_PERIOD_MS
    &&& match t.phase {
        Phase::Calibrating(c) => t.kind is Gyroscope && c.wf() && c.taken < CAL_SAMPLE_COUNT,
        Phase::Reporting(_) => true,
        Phase::Halted => true,
    }
}

/// A pipeline activates when it still runs and its due time has come.
pub open spec fn task_due(t: Task, now: u64) -> bool {
    &&& !(t.phase is Halted)
    &&& now >= t.next_due
}

/// The gyroscope axes inside a sample; zero for any other shape.
pub open spec fn sample_axes(s: Sample) -> Axes {
    match s {
        Sample::GyroRate(a) => a,
        _ => Axes { x: 0, y: 0, z: 0 },
    }
}

/// The decoded reading for a successful sample under a bias offset.
pub open spec fn decode(s: Sample, offset: Axes) -> Reading {
    match s {
        Sample::GyroRate(a) => Reading::Angular(
            AxesI32 {
                x: (a.x - offset.x) as i32,
                y: (a.y - offset.y) as i32,
                z: (a.z - offset.z) as i32,
            },
        ),
        Sample::Field { x, y, z } => Reading::Field { x, y, z },
        Sample::Acceleration { x, y, z } => Reading::Acceleration { x, y, z },
        Sample::Celsius(d) => Reading::Celsius(d),
        Sample::Moment(dt) => Reading::Moment(dt),
    }
}

/// The log event one activation emits.
#[derive(Clone, Copy, PartialEq, Eq, Structural, Debug)]
pub enum Outcome {
    /// One calibration sample was read (accepted or rejected by the filter).
    CalSampleTaken,
    /// A calibration read failed: the pipeline never enters its reporting
    /// loop.
    CalibrationAborted(Fault),
    /// A successful read of the reporting loop, decoded.
    Reported(Reading),
    /// A transient read fault of the reporting loop; the loop goes on.
    ReadFailed(Fault),
    /// A read failure on the running clock pipeline: fatal for it alone.
    ClockReadFatal(Fault),
    /// One clock configuration sub-step, logged at startup.
    ClockConfigured { step: ConfigStep, ok: bool },
}

/// The three independent clock configuration sub-steps.
#[derive(Clone, Copy, PartialEq, Eq, Structural, Debug)]
pub enum ConfigStep {
    SquareWaveInterrupt,
    SquareWaveFrequency,
    InitialDatetime,
}

/// An event after which its pipeline never runs again.
pub open spec fn terminal(o: Outcome) -> bool {
    o is CalibrationAborted || o is ClockReadFatal
}

/// An event of the reporting loop: one read attempt after calibration.
pub open spec fn report_attempt(o: Outcome) -> bool {
    o is Reported || o is ReadFailed || o is ClockReadFatal
}

/// One activation of a pipeline: from its state, the time and the response of
/// its one device read, to its next state and the event it logs.
pub open spec fn task_step(t: Task, now: u64, r: DeviceResponse) -> (Task, Outcome) {
    match t.phase {
        Phase::Calibrating(c) => match r {
            Ok(s) => {
                let c2 = calib_step(c, sample_axes(s));
                if c2.taken == CAL_SAMPLE_COUNT {
                    // The pass is done: the offset is fixed and the first
                    // report fires immediately.
                    (
                        Task { next_due: now, phase: Phase::Reporting(c2.avg), ..t },
                        Outcome::CalSampleTaken,
                    )
                } else {
                    (
                        Task {
                            next_due: (now + CAL_DELAY_MS) as u64,
                            phase: Phase::Calibrating(c2),
                            ..t
                        },
                        Outcome::CalSampleTaken,
                    )
                }
            },
            Err(f) => (Task { phase: Phase::Halted, ..t }, Outcome::CalibrationAborted(f)),
        },
        Phase::Reporting(offset) => match r {
            Ok(s) => (
                Task { next_due: (now + t.period_ms) as u64, ..t },
                Outcome::Reported(decode(s, offset)),
            ),
            Err(f) => {
                // A read failure is fatal only for a clock whose date-time
                // was successfully set; before that it stays transient.
                if t.kind is Clock && t.datetime_set {
                    (Task { phase: Phase::Halted, ..t }, Outcome::ClockReadFatal(f))
                } else {
                    (
                        Task { next_due: (now + t.period_ms) as u64, ..t },
                        Outcome::ReadFailed(f),
                    )
                }
            },
        },
        // Never activated: a halted pipeline is not due.
        Phase::Halted => (t, Outcome::CalSampleTaken),
    }
}

/// Subtract the calibration offset from a raw reading, exactly, in a width
/// where it cannot wrap.
pub fn apply_offset(raw: Axes, offset: Axes) -> (r: AxesI32)
    ensures
        r.x == raw.x - offset.x,
        r.y == raw.y - offset.y,
        r.z == raw.z - offset.z,
{
    AxesI32 {
        x: raw.x as i32 - offset.x as i32,
        y: raw.y as i32 - offset.y as i32,
        z: raw.z as i32 - offset.z as i32,
    }
}

/// Decode one successful sample under a bias offset.
pub fn decode_sample(s: Sample, offset: Axes) -> (r: Reading)
    ensures
        r == decode(s, offset),
{
    match s {
        Sample::GyroRate(a) => Reading::Angular(apply_offset(a, offset)),
        Sample::Field { x, y, z } => Reading::Field { x, y, z },
        Sample::Acceleration { x, y, z } => Reading::Acceleration { x, y, z },
        Sample::Celsius(d) => Reading::Celsius(d),
        Sample::Moment(dt) => Reading::Moment(dt),
    }
}

/// One activation, executably, mirroring `task_step` exactly.
pub fn task_step_exec(t: &Task, now: u64, r: DeviceResponse) -> (res: (Task, Outcome))
    requires
        task_wf(*t),
        !(t.phase is Halted),
        now + MAX_PERIOD_MS <= u64::MAX,
    ensures
        res == task_step(*t, now, r),
        task_wf(res.0),
{
    match t.phase {
        Phase::Calibrating(c) => match r {
            Ok(s) => {
                let raw = match s {
                    Sample::GyroRate(a) => a,
                    _ => Axes { x: 0, y: 0, z: 0 },
                };
                let mut c2 = c;
                c2.feed(raw);
                if c2.taken == CAL_SAMPLE_COUNT {
                    (
                        Task { next_due: now, phase: Phase::Reporting(c2.avg), ..*t },
                        Outcome::CalSampleTaken,
                    )
                } else {
                    (
                        Task { next_due: now + CAL_DELAY_MS, phase: Phase::Calibrating(c2), ..*t },
                        Outcome::CalSampleTaken,
                    )
                }
            },
            Err(f) => (Task { phase: Phase::Halted, ..*t }, Outcome::CalibrationAborted(f)),
        },
        Phase::Reporting(offset) => match r {
            Ok(s) => (
                Task { next_due: now + t.period_ms, ..*t },
                Outcome::Reported(decode_sample(s, offset)),
            ),
            Err(f) => match t.kind {
                PipelineKind::Clock => {
                    if t.datetime_set {
                        (Task { phase: Phase::Halted, ..*t }, Outcome::ClockReadFatal(f))
                    } else {
                        (
                            Task { next_due: now + t.period_ms, ..*t },
                            Outcome::ReadFailed(f),
                        )
                    }
                },
                _ => (
                    Task { next_due: now + t.period_ms, ..*t },
                    Outcome::ReadFailed(f),
                ),
            },
        },
        Phase::Halted => (*t, Outcome::CalSampleTaken),
    }
}

/// A fatal stop presupposes a successfully set date-time: no activation of
/// any pipeline interprets a read failure as fatal unless it is the clock's
/// pipeline and the clock device's date-time was validly set at startup. A
/// failure before that is logged as transient and the loop goes on at the
/// next tick.
pub proof fn lemma_fatal_presupposes_datetime_set(t: Task, now: u64, r: DeviceResponse)
    ensures
        task_step(t, now, r).1 is ClockReadFatal ==> t.kind is Clock && t.datetime_set,
        t.phase is Reporting && r is Err && !t.datetime_set ==> task_step(t, now, r).1
            == Outcome::ReadFailed(r->Err_0) && task_step(t, now, r).0.phase == t.phase,
{
}

} // verus!
