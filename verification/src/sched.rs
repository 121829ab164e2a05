//! The cooperative scheduler: it owns every pipeline, the shared-bus arbiter
//! and the diagnostic log, and interleaves the pipelines one activation at a
//! time. An activation is one cooperative segment — take the bus, run exactly
//! one transaction, give the bus back, log one event — so the model mirrors a
//! single-core runtime where a unit yields only at its suspension points. The
//! environment (hardware, in the model's eyes) supplies each activation's
//! device response and the passage of time.
//!
//! The scheduler's well-formedness invariant carries the system's laws: at
//! most one transaction is ever in flight on the bus; a pipeline that logged a
//! terminal event never logs again; reporting reads of one pipeline stand at
//! least a full period apart.

use crate::bus::BusArbiter;
use crate::calib::{Axes, Calibrator};
use crate::clock::{ClockConfig, ClockSourcing};
use crate::pipeline::{
    report_attempt, response_fits, task_due, task_step, task_step_exec, task_wf, terminal,
    ConfigStep, DeviceResponse, Outcome, Phase, PipelineKind, Task,
};
use crate::pipeline::MAX_PERIOD_MS;
use vstd::prelude::*;

verus! {

/// Sampling periods of the pipelines, in milliseconds, fixed at build time.
pub const MAG_TEMP_PERIOD_MS: u64 = 3000;

pub const MAG_PERIOD_MS: u64 = 2048;

pub const ACCEL_PERIOD_MS: u64 = 777;

/// The clock ticks once per second: the square-wave interrupt frequency.
pub const CLOCK_TICK_MS: u64 = 1000;

pub const GYRO_TEMP_PERIOD_MS: u64 = 5000;

pub const GYRO_PERIOD_MS: u64 = 1433;

/// The model clock never passes this, so adding one period never wraps.
pub const HORIZON_MS: u64 = u64::MAX - MAX_PERIOD_MS;

/// The fixed indices the scheduler spawns the pipelines at.
pub const MAG_TEMP_TASK: usize = 0;

pub const MAG_TASK: usize = 1;

pub const ACCEL_TASK: usize = 2;

pub const CLOCK_TASK: usize = 3;

pub const GYRO_TEMP_TASK: usize = 4;

pub const GYRO_TASK: usize = 5;

/// One line of the diagnostic log: which pipeline, when, and what happened.
#[derive(Clone, Copy, PartialEq, Eq, Structural, Debug)]
pub struct Event {
    pub task: usize,
    pub time: u64,
    pub what: Outcome,
}

/// The whole system between two cooperative segments.
pub struct Scheduler {
    pub now: u64,
    pub bus: BusArbiter,
    pub tasks: Vec<Task>,
    pub log: Vec<Event>,
}

/// The scheduler's mathematical state.
pub struct SchedModel {
    pub now: u64,
    pub bus: BusArbiter,
    pub tasks: Seq<Task>,
    pub log: Seq<Event>,
}

impl Scheduler {
    pub open spec fn model(&self) -> SchedModel {
        SchedModel { now: self.now, bus: self.bus, tasks: self.tasks@, log: self.log@ }
    }
}

/// Everything that holds of the system between two cooperative segments.
pub open spec fn wf(m: SchedModel) -> bool {
    // The bus rests between segments, and no more than one transaction has
    // ever been in flight at once.
    &&& m.bus.idle()
    &&& m.bus.high_water <= 1
    &&& m.now <= HORIZON_MS
    &&& forall|i: int| 0 <= i < m.tasks.len() ==> task_wf(#[trigger] m.tasks[i])
    // Every event names a live pipeline and a past instant.
    &&& forall|k: int|
        0 <= k < m.log.len() ==> (#[trigger] m.log[k]).task < m.tasks.len() && m.log[k].time
            <= m.now
    // A pipeline that logged a terminal event is halted now ...
    &&& forall|k: int|
        0 <= k < m.log.len() && terminal((#[trigger] m.log[k]).what) ==> m.tasks[m.log[k].task
            as int].phase is Halted
    // ... and nothing of it follows that event.
    &&& forall|k1: int, k2: int|
        #![trigger m.log[k1], m.log[k2]]
        0 <= k1 < k2 < m.log.len() && terminal(m.log[k1].what) ==> m.log[k2].task
            != m.log[k1].task
    // No reporting-loop event exists while its pipeline still calibrates.
    &&& forall|k: int|
        0 <= k < m.log.len() && report_attempt((#[trigger] m.log[k]).what) ==> !(m.tasks[m.log[k].task as int].phase is Calibrating)
    // A reporting pipeline's next due time lies a full period past each of
    // its logged reporting reads.
    &&& forall|k: int|
        0 <= k < m.log.len() && report_attempt((#[trigger] m.log[k]).what)
            && m.tasks[m.log[k].task as int].phase is Reporting ==> m.tasks[m.log[k].task
            as int].next_due >= m.log[k].time + m.tasks[m.log[k].task as int].period_ms
    // Consecutive reporting reads of one pipeline stand a full period apart.
    &&& forall|k1: int, k2: int|
        #![trigger m.log[k1], m.log[k2]]
        0 <= k1 < k2 < m.log.len() && m.log[k1].task == m.log[k2].task && report_attempt(
            m.log[k1].what,
        ) && report_attempt(m.log[k2].what) ==> m.log[k2].time >= m.log[k1].time
            + m.tasks[m.log[k1].task as int].period_ms
}

/// Where the model clock stands after `dt` milliseconds pass.
pub open spec fn advanced_now(now: u64, dt: u64) -> u64 {
    if now + dt > HORIZON_MS {
        HORIZON_MS
    } else {
        (now + dt) as u64
    }
}

pub open spec fn advance_model(m: SchedModel, dt: u64) -> SchedModel {
    SchedModel { now: advanced_now(m.now, dt), ..m }
}

/// One scheduled activation of pipeline `i` with device response `r`: a
/// pipeline that is not due leaves the system untouched; a due one runs one
/// exclusive bus transaction, steps its state machine and logs one event.
pub open spec fn run_task_model(m: SchedModel, i: usize, r: DeviceResponse) -> SchedModel {
    if i < m.tasks.len() && task_due(m.tasks[i as int], m.now) {
        let stepped = task_step(m.tasks[i as int], m.now, r);
        SchedModel {
            now: m.now,
            bus: (BusArbiter {
                high_water: if m.bus.high_water < 1 {
                    1u32
                } else {
                    m.bus.high_water
                },
                ..m.bus
            }),
            tasks: m.tasks.update(i as int, stepped.0),
            log: m.log.push(Event { task: i, time: m.now, what: stepped.1 }),
        }
    } else {
        m
    }
}

impl Scheduler {
    /// Let `dt` milliseconds pass. Time only moves forward, and stops at the
    /// model's horizon.
    pub fn advance(&mut self, dt: u64)
        requires
            wf(old(self).model()),
        ensures
            final(self).model() == advance_model(old(self).model(), dt),
            wf(final(self).model()),
    {
        if dt > HORIZON_MS - self.now {
            self.now = HORIZON_MS;
        } else {
            self.now = self.now + dt;
        }
    }

    /// Run one cooperative segment of pipeline `i`: if it is due, it acquires
    /// the bus exclusively, performs exactly one transaction whose outcome is
    /// `r`, releases the bus, and logs one event. Returns whether it ran.
    pub fn run_task(&mut self, i: usize, r: DeviceResponse) -> (ran: bool)
        requires
            wf(old(self).model()),
            i < old(self).tasks.len(),
            response_fits(old(self).tasks@[i as int].kind, r),
        ensures
            final(self).model() == run_task_model(old(self).model(), i, r),
            wf(final(self).model()),
            ran == task_due(old(self).tasks@[i as int], old(self).now),
    {
        let t = self.tasks[i];
        let due = match t.phase {
            Phase::Halted => false,
            _ => self.now >= t.next_due,
        };
        if !due {
            return false;
        }
        // The cooperative segment: exclusive grant, one transaction, release.
        let granted = self.bus.acquire(i);
        assert(granted);
        self.bus.begin_transfer(i);
        self.bus.end_transfer(i);
        self.bus.release(i);
        let stepped = task_step_exec(&t, self.now, r);
        self.tasks.set(i, stepped.0);
        self.log.push(Event { task: i, time: self.now, what: stepped.1 });
        proof {
            lemma_run_task_preserves_wf(old(self).model(), i, r, self.model());
        }
        true
    }
}

/// The well-formedness invariant survives one activation.
proof fn lemma_run_task_preserves_wf(m: SchedModel, i: usize, r: DeviceResponse, m2: SchedModel)
    requires
        wf(m),
        i < m.tasks.len(),
        task_due(m.tasks[i as int], m.now),
        m2 == run_task_model(m, i, r),
    ensures
        wf(m2),
{
    let t = m.tasks[i as int];
    let stepped = task_step(t, m.now, r);
    let t2 = stepped.0;
    let out = stepped.1;
    let e = Event { task: i, time: m.now, what: out };
    assert(m2.tasks == m.tasks.update(i as int, t2));
    assert(m2.log == m.log.push(e));
    assert(m2.log[m.log.len() as int] == e);
    assert(forall|k: int| 0 <= k < m.log.len() ==> m2.log[k] == m.log[k]);
    assert(task_wf(t2)) by {
        assert(task_wf(t));
        if t.phase is Calibrating {
            let c = t.phase->Calibrating_0;
            crate::calib::lemma_calib_step_wf(c, crate::pipeline::sample_axes(r->Ok_0));
        }
    }
    // Old terminal events cannot belong to pipeline `i`: it just ran.
    assert forall|k: int|
        0 <= k < m.log.len() && terminal((#[trigger] m.log[k]).what) implies m.log[k].task
        != i by {
        if m.log[k].task == i {
            assert(m.tasks[i as int].phase is Halted);
        }
    }
    // Terminal events point at halted pipelines.
    assert forall|k: int|
        0 <= k < m2.log.len() && terminal((#[trigger] m2.log[k]).what) implies m2.tasks[m2.log[k].task as int].phase is Halted by {
        if k < m.log.len() {
            assert(m.tasks[m.log[k].task as int].phase is Halted);
            assert(m.log[k].task != i);
        } else {
            assert(m2.log[k] == e);
        }
    }
    // Nothing follows a terminal event of the same pipeline.
    assert forall|k1: int, k2: int|
        #![trigger m2.log[k1], m2.log[k2]]
        0 <= k1 < k2 < m2.log.len() && terminal(m2.log[k1].what) implies m2.log[k2].task
        != m2.log[k1].task by {
        if k2 < m.log.len() {
        } else {
            assert(m2.log[k2] == e);
            assert(m.log[k1].task != i);
        }
    }
    // No reporting event while the pipeline calibrates.
    assert forall|k: int|
        0 <= k < m2.log.len() && report_attempt(
            (#[trigger] m2.log[k]).what,
        ) implies !(m2.tasks[m2.log[k].task as int].phase is Calibrating) by {
        if k < m.log.len() {
            if m.log[k].task == i {
                assert(!(t.phase is Calibrating));
                assert(!(t2.phase is Calibrating));
            }
        } else {
            assert(m2.log[k] == e);
            assert(!(t2.phase is Calibrating));
        }
    }
    // A reporting pipeline's due time lies a period past its logged reads.
    assert forall|k: int|
        0 <= k < m2.log.len() && report_attempt((#[trigger] m2.log[k]).what)
            && m2.tasks[m2.log[k].task as int].phase is Reporting implies m2.tasks[m2.log[k].task
        as int].next_due >= m2.log[k].time + m2.tasks[m2.log[k].task as int].period_ms by {
        if k < m.log.len() {
            if m.log[k].task == i {
                assert(!(t.phase is Calibrating));
                assert(t.phase is Reporting);
                assert(t2.next_due == m.now + t.period_ms);
            }
        } else {
            assert(m2.log[k] == e);
            assert(t2.next_due == m.now + t.period_ms);
        }
    }
    // Consecutive reporting reads of one pipeline are a period apart.
    assert forall|k1: int, k2: int|
        #![trigger m2.log[k1], m2.log[k2]]
        0 <= k1 < k2 < m2.log.len() && m2.log[k1].task == m2.log[k2].task && report_attempt(
            m2.log[k1].what,
        ) && report_attempt(m2.log[k2].what) implies m2.log[k2].time >= m2.log[k1].time
        + m2.tasks[m2.log[k1].task as int].period_ms by {
        if k2 < m.log.len() {
            assert(m.log[k2].time >= m.log[k1].time + m.tasks[m.log[k1].task as int].period_ms);
        } else {
            assert(m2.log[k2] == e);
            if m.log[k1].task == i {
                assert(!(t.phase is Calibrating));
                assert(t.phase is Reporting);
                assert(t.next_due >= m.log[k1].time + t.period_ms);
                assert(m.now >= t.next_due);
            }
        }
    }
}

/// The pipelines the scheduler spawns at startup. A device that could not be
/// constructed (here: the gyroscope, whose probe may find no electrical
/// response) costs only its own pipelines; every unrelated pipeline is
/// spawned regardless. Without interrupt-backed ticks the clock pipeline is
/// spawned halted: the system degrades instead of failing closed. Only a
/// successfully set date-time arms the clock pipeline's fatal interpretation
/// of read failures. Every spawned pipeline is due at once — its first read
/// fires with no initial delay.
pub open spec fn spawn_plan(gyro_present: bool, ticks_enabled: bool, datetime_set: bool) -> Seq<Task> {
    let base = seq![
        Task {
            kind: PipelineKind::MagTemperature,
            period_ms: MAG_TEMP_PERIOD_MS,
            next_due: 0,
            datetime_set: false,
            phase: Phase::Reporting(Axes { x: 0, y: 0, z: 0 }),
        },
        Task {
            kind: PipelineKind::Magnetometer,
            period_ms: MAG_PERIOD_MS,
            next_due: 0,
            datetime_set: false,
            phase: Phase::Reporting(Axes { x: 0, y: 0, z: 0 }),
        },
        Task {
            kind: PipelineKind::Accelerometer,
            period_ms: ACCEL_PERIOD_MS,
            next_due: 0,
            datetime_set: false,
            phase: Phase::Reporting(Axes { x: 0, y: 0, z: 0 }),
        },
        Task {
            kind: PipelineKind::Clock,
            period_ms: CLOCK_TICK_MS,
            next_due: 0,
            datetime_set,
            phase: if ticks_enabled {
                Phase::Reporting(Axes { x: 0, y: 0, z: 0 })
            } else {
                Phase::Halted
            },
        },
    ];
    if gyro_present {
        base.push(
            Task {
                kind: PipelineKind::GyroTemperature,
                period_ms: GYRO_TEMP_PERIOD_MS,
                next_due: 0,
                datetime_set: false,
                phase: Phase::Reporting(Axes { x: 0, y: 0, z: 0 }),
            },
        ).push(
            Task {
                kind: PipelineKind::Gyroscope,
                period_ms: GYRO_PERIOD_MS,
                next_due: 0,
                datetime_set: false,
                phase: Phase::Calibrating(Calibrator::initial()),
            },
        )
    } else {
        base
    }
}

/// The three clock configuration sub-steps, logged independently: the failure
/// of one never aborts the others.
pub open spec fn startup_log(cfg: ClockConfig) -> Seq<Event> {
    seq![
        Event {
            task: CLOCK_TASK,
            time: 0,
            what: Outcome::ClockConfigured { step: ConfigStep::SquareWaveInterrupt, ok: cfg.sqw_ok },
        },
        Event {
            task: CLOCK_TASK,
            time: 0,
            what: Outcome::ClockConfigured { step: ConfigStep::SquareWaveFrequency, ok: cfg.freq_ok },
        },
        Event {
            task: CLOCK_TASK,
            time: 0,
            what: Outcome::ClockConfigured {
                step: ConfigStep::InitialDatetime,
                ok: cfg.datetime_ok,
            },
        },
    ]
}

/// Construct the whole system at startup: the bus arbiter, every pipeline
/// whose device exists, and the clock's configuration record. Startup always
/// proceeds; construction and configuration failures cost only their own
/// pipeline. The clock runs in its configured variant: interrupt-driven
/// (canonical) or polled.
pub fn startup(gyro_present: bool, cfg: ClockConfig, sourcing: ClockSourcing) -> (s: Scheduler)
    ensures
        wf(s.model()),
        s.model().now == 0,
        s.model().bus.idle(),
        s.model().bus.high_water == 0,
        s.model().tasks == spawn_plan(
            gyro_present,
            sourcing is Polled || (cfg.sqw_ok && cfg.freq_ok),
            cfg.datetime_ok,
        ),
        s.model().log == startup_log(cfg),
{
    let plan = crate::clock::plan_clock_startup(cfg, sourcing);
    let mut tasks: Vec<Task> = Vec::new();
    tasks.push(
        Task {
            kind: PipelineKind::MagTemperature,
            period_ms: MAG_TEMP_PERIOD_MS,
            next_due: 0,
            datetime_set: false,
            phase: Phase::Reporting(Axes { x: 0, y: 0, z: 0 }),
        },
    );
    tasks.push(
        Task {
            kind: PipelineKind::Magnetometer,
            period_ms: MAG_PERIOD_MS,
            next_due: 0,
            datetime_set: false,
            phase: Phase::Reporting(Axes { x: 0, y: 0, z: 0 }),
        },
    );
    tasks.push(
        Task {
            kind: PipelineKind::Accelerometer,
            period_ms: ACCEL_PERIOD_MS,
            next_due: 0,
            datetime_set: false,
            phase: Phase::Reporting(Axes { x: 0, y: 0, z: 0 }),
        },
    );
    tasks.push(
        Task {
            kind: PipelineKind::Clock,
            period_ms: CLOCK_TICK_MS,
            next_due: 0,
            datetime_set: plan.fatal_reads_armed,
            phase: if plan.ticks_enabled {
                Phase::Reporting(Axes { x: 0, y: 0, z: 0 })
            } else {
                Phase::Halted
            },
        },
    );
    if gyro_present {
        tasks.push(
            Task {
                kind: PipelineKind::GyroTemperature,
                period_ms: GYRO_TEMP_PERIOD_MS,
                next_due: 0,
                datetime_set: false,
                phase: Phase::Reporting(Axes { x: 0, y: 0, z: 0 }),
            },
        );
        tasks.push(
            Task {
                kind: PipelineKind::Gyroscope,
                period_ms: GYRO_PERIOD_MS,
                next_due: 0,
                datetime_set: false,
                phase: Phase::Calibrating(Calibrator::new()),
            },
        );
    }
    let mut log: Vec<Event> = Vec::new();
    log.push(
        Event {
            task: CLOCK_TASK,
            time: 0,
            what: Outcome::ClockConfigured { step: ConfigStep::SquareWaveInterrupt, ok: cfg.sqw_ok },
        },
    );
    log.push(
        Event {
            task: CLOCK_TASK,
            time: 0,
            what: Outcome::ClockConfigured { step: ConfigStep::SquareWaveFrequency, ok: cfg.freq_ok },
        },
    );
    log.push(
        Event {
            task: CLOCK_TASK,
            time: 0,
            what: Outcome::ClockConfigured {
                step: ConfigStep::InitialDatetime,
                ok: cfg.datetime_ok,
            },
        },
    );
    let s = Scheduler { now: 0, bus: BusArbiter::new(), tasks, log };
    proof {
        assert(s.model().tasks =~= spawn_plan(
            gyro_present,
            sourcing is Polled || (cfg.sqw_ok && cfg.freq_ok),
            cfg.datetime_ok,
        ));
        assert(s.model().log =~= startup_log(cfg));
    }
    s
}

/// A pipeline's identity is fixed for its whole lifetime: no activation
/// renegotiates any pipeline's kind, sampling period, or whether a valid
/// date-time sits in the clock device.
pub proof fn lemma_period_fixed(m: SchedModel, i: usize, r: DeviceResponse, k: int)
    requires
        0 <= k < m.tasks.len(),
    ensures
        run_task_model(m, i, r).tasks[k].period_ms == m.tasks[k].period_ms,
        run_task_model(m, i, r).tasks[k].kind == m.tasks[k].kind,
        run_task_model(m, i, r).tasks[k].datetime_set == m.tasks[k].datetime_set,
{
}

/// A calibrating gyroscope pipeline never reports, and it enters its
/// reporting loop only carrying the offset of a calibration pass that
/// consumed its full sample budget: no bias-corrected reading ever rests on
/// an unfinished pass.
pub proof fn lemma_no_report_before_calibration(t: Task, now: u64, r: DeviceResponse)
    requires
        task_wf(t),
        t.phase is Calibrating,
    ensures
        !(task_step(t, now, r).1 is Reported),
        task_step(t, now, r).0.phase is Reporting ==> {
            let done = crate::calib::calib_step(
                t.phase->Calibrating_0,
                crate::pipeline::sample_axes(r->Ok_0),
            );
            &&& done.taken == crate::calib::CAL_SAMPLE_COUNT
            &&& task_step(t, now, r).0.phase->Reporting_0 == done.avg
        },
{
}

/// Mutual exclusion: between any two cooperative segments of any run, no
/// transaction is in flight, and the instrumented high-water mark shows that
/// the count of concurrently in-flight transactions on the shared bus never
/// exceeded one.
pub proof fn lemma_mutual_exclusion(m: SchedModel)
    requires
        wf(m),
    ensures
        m.bus.in_flight == 0,
        m.bus.high_water <= 1,
{
}

/// Fatal stop: after a terminal event of one pipeline — a fatal clock read
/// failure or an aborted calibration — no later event of that pipeline exists
/// in the log; other pipelines' events are untouched by the clause.
pub proof fn lemma_fatal_stop(m: SchedModel, k1: int, k2: int)
    requires
        wf(m),
        0 <= k1 < k2 < m.log.len(),
        terminal(m.log[k1].what),
    ensures
        m.log[k2].task != m.log[k1].task,
{
}

/// Pacing: any two reporting reads of one pipeline stand at least a full
/// configured period apart. Together with a spawn plan that makes every
/// pipeline due at time zero, this is first-sample-immediacy followed by
/// full-period waits.
pub proof fn lemma_paced_reporting(m: SchedModel, k1: int, k2: int)
    requires
        wf(m),
        0 <= k1 < k2 < m.log.len(),
        m.log[k1].task == m.log[k2].task,
        report_attempt(m.log[k1].what),
        report_attempt(m.log[k2].what),
    ensures
        m.log[k2].time >= m.log[k1].time + m.tasks[m.log[k1].task as int].period_ms,
{
}

/// One environment command: time passes, or one pipeline is scheduled
/// together with the response its device read will produce.
#[derive(Clone, Copy, Debug)]
pub enum Cmd {
    Advance(u64),
    Run(usize, DeviceResponse),
}

pub open spec fn step_model(m: SchedModel, c: Cmd) -> SchedModel {
    match c {
        Cmd::Advance(dt) => advance_model(m, dt),
        Cmd::Run(i, r) => run_task_model(m, i, r),
    }
}

/// The system after a whole scripted schedule of commands.
pub open spec fn run_model(m: SchedModel, script: Seq<Cmd>) -> SchedModel
    decreases script.len(),
{
    if script.len() == 0 {
        m
    } else {
        step_model(run_model(m, script.drop_last()), script.last())
    }
}

/// A command the scheduler can execute: its pipeline index in range, and the
/// response shaped as that pipeline's device answers.
pub open spec fn cmd_fits(m: SchedModel, c: Cmd) -> bool {
    match c {
        Cmd::Advance(_) => true,
        Cmd::Run(i, r) => i < m.tasks.len() && response_fits(m.tasks[i as int].kind, r),
    }
}

/// No command reshapes the system: one step changes no pipeline's kind or
/// period and spawns or removes none.
proof fn lemma_step_preserves_shape(m: SchedModel, c: Cmd)
    ensures
        step_model(m, c).tasks.len() == m.tasks.len(),
        forall|j: int|
            0 <= j < m.tasks.len() ==> (#[trigger] step_model(m, c).tasks[j]).kind
                == m.tasks[j].kind && step_model(m, c).tasks[j].period_ms == m.tasks[j].period_ms,
{
}

impl Scheduler {
    /// Execute a whole schedule, one command at a time. The result is exactly
    /// the spec-level run of the same schedule, so everything proved of
    /// `run_model` — failure isolation above all — holds of this execution.
    pub fn run_script(&mut self, script: &Vec<Cmd>)
        requires
            wf(old(self).model()),
            forall|k: int|
                0 <= k < script@.len() ==> cmd_fits(old(self).model(), #[trigger] script@[k]),
        ensures
            wf(final(self).model()),
            final(self).model() == run_model(old(self).model(), script@),
    {
        let ghost m0 = self.model();
        let mut idx: usize = 0;
        while idx < script.len()
            invariant
                wf(self.model()),
                idx <= script.len(),
                forall|k: int|
                    0 <= k < script@.len() ==> cmd_fits(m0, #[trigger] script@[k]),
                self.model() == run_model(m0, script@.subrange(0, idx as int)),
                self.model().tasks.len() == m0.tasks.len(),
                forall|j: int|
                    0 <= j < m0.tasks.len() ==> (#[trigger] self.model().tasks[j]).kind
                        == m0.tasks[j].kind,
            decreases script@.len() - idx,
        {
            let c = script[idx];
            proof {
                assert(script@.subrange(0, idx + 1).drop_last() =~= script@.subrange(
                    0,
                    idx as int,
                ));
                assert(script@.subrange(0, idx + 1).last() == script@[idx as int]);
                lemma_step_preserves_shape(self.model(), c);
            }
            match c {
                Cmd::Advance(dt) => self.advance(dt),
                Cmd::Run(i, r) => {
                    let _ran = self.run_task(i, r);
                },
            }
            idx = idx + 1;
        }
        proof {
            assert(script@.subrange(0, script@.len() as int) =~= script@);
        }
    }
}

/// The log lines of one pipeline, in order.
pub open spec fn project_log(log: Seq<Event>, j: usize) -> Seq<Event>
    decreases log.len(),
{
    if log.len() == 0 {
        Seq::empty()
    } else {
        let p = project_log(log.drop_last(), j);
        if log.last().task == j {
            p.push(log.last())
        } else {
            p
        }
    }
}

/// Two schedules agree for pipeline `j` when they schedule the same pipelines
/// at the same points with the same time steps and deliver the same device
/// responses to `j`; every other pipeline's responses may differ arbitrarily
/// — a permanently failing gyroscope handle included.
pub open spec fn agrees_for(a: Cmd, b: Cmd, j: usize) -> bool {
    match (a, b) {
        (Cmd::Advance(x), Cmd::Advance(y)) => x == y,
        (Cmd::Run(i1, r1), Cmd::Run(i2, r2)) => i1 == i2 && (i1 == j ==> r1 == r2),
        _ => false,
    }
}

/// Isolation on failure: run the same schedule twice from the same start,
/// changing only what the devices of other pipelines answer — for instance,
/// injecting a permanent transport error into the gyroscope's handle. Then
/// pipeline `j` ends in the same state, the model clock reads the same, and
/// `j`'s log — every outcome and every timestamp — is identical. No failure
/// of one pipeline alters the outcome or timing of another.
pub proof fn lemma_failure_isolation(m: SchedModel, s1: Seq<Cmd>, s2: Seq<Cmd>, j: usize)
    requires
        s1.len() == s2.len(),
        forall|k: int| 0 <= k < s1.len() ==> agrees_for(#[trigger] s1[k], s2[k], j),
    ensures
        run_model(m, s1).now == run_model(m, s2).now,
        run_model(m, s1).tasks.len() == m.tasks.len(),
        run_model(m, s2).tasks.len() == m.tasks.len(),
        j < m.tasks.len() ==> run_model(m, s1).tasks[j as int] == run_model(m, s2).tasks[j as int],
        project_log(run_model(m, s1).log, j) == project_log(run_model(m, s2).log, j),
    decreases s1.len(),
{
    if s1.len() == 0 {
    } else {
        let p1 = s1.drop_last();
        let p2 = s2.drop_last();
        assert forall|k: int| 0 <= k < p1.len() implies agrees_for(#[trigger] p1[k], p2[k], j) by {
            assert(agrees_for(s1[k], s2[k], j));
        }
        lemma_failure_isolation(m, p1, p2, j);
        let m1 = run_model(m, p1);
        let m2 = run_model(m, p2);
        assert(agrees_for(s1.last(), s2.last(), j));
        match s1.last() {
            Cmd::Advance(_) => {},
            Cmd::Run(i, r1) => {
                let r2 = s2.last()->Run_1;
                if i < m1.tasks.len() && task_due(m1.tasks[i as int], m1.now) {
                    let e1 = Event {
                        task: i,
                        time: m1.now,
                        what: task_step(m1.tasks[i as int], m1.now, r1).1,
                    };
                    assert(run_model(m, s1).log == m1.log.push(e1));
                    assert(m1.log.push(e1).drop_last() =~= m1.log);
                }
                if i < m2.tasks.len() && task_due(m2.tasks[i as int], m2.now) {
                    let e2 = Event {
                        task: i,
                        time: m2.now,
                        what: task_step(m2.tasks[i as int], m2.now, r2).1,
                    };
                    assert(run_model(m, s2).log == m2.log.push(e2));
                    assert(m2.log.push(e2).drop_last() =~= m2.log);
                }
            },
        }
    }
}

} // verus!
