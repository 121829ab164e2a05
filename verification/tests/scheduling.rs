use sensor_hub::bus::BusArbiter;
use sensor_hub::calib::{Axes, AxesI32};
use sensor_hub::clock::{initial_datetime, ClockConfig, ClockSourcing};
use sensor_hub::errors::{Fault, SpiFault};
use sensor_hub::pipeline::{
    apply_offset, decode_sample, DeviceResponse, Outcome, Phase, PipelineKind, Reading, Sample,
};
use sensor_hub::sched::{
    startup, Cmd, Event, Scheduler, ACCEL_PERIOD_MS, ACCEL_TASK, CLOCK_TASK, CLOCK_TICK_MS,
    GYRO_PERIOD_MS, GYRO_TASK, GYRO_TEMP_TASK, MAG_PERIOD_MS, MAG_TASK, MAG_TEMP_TASK,
};

fn cfg_all_ok() -> ClockConfig {
    ClockConfig { sqw_ok: true, freq_ok: true, datetime_ok: true }
}

fn mag_ok() -> DeviceResponse {
    Ok(Sample::Field { x: 47000, y: -1250, z: 3000 })
}

fn clock_ok() -> DeviceResponse {
    Ok(Sample::Moment(initial_datetime()))
}

fn gyro_ok(x: i16, y: i16, z: i16) -> DeviceResponse {
    Ok(Sample::GyroRate(Axes { x, y, z }))
}

fn events_of(s: &Scheduler, task: usize) -> Vec<Event> {
    let mut out = Vec::new();
    for e in s.log.iter() {
        if e.task == task {
            out.push(*e);
        }
    }
    out
}

#[test]
fn bus_grants_are_exclusive() {
    let mut bus = BusArbiter::new();
    assert!(bus.acquire(0));
    assert!(!bus.acquire(1));
    assert!(!bus.acquire(0));
    bus.begin_transfer(0);
    assert_eq!(bus.in_flight, 1);
    bus.end_transfer(0);
    bus.release(0);
    assert!(bus.acquire(1));
    bus.release(1);
    assert_eq!(bus.in_flight, 0);
    assert_eq!(bus.high_water, 1);
}

#[test]
fn startup_spawns_every_unrelated_pipeline() {
    let with_gyro = startup(true, cfg_all_ok(), ClockSourcing::InterruptDriven);
    assert_eq!(with_gyro.tasks.len(), 6);
    let without_gyro = startup(false, cfg_all_ok(), ClockSourcing::InterruptDriven);
    assert_eq!(without_gyro.tasks.len(), 4);
    // A missing gyroscope costs exactly its own two pipelines.
    for i in 0..4 {
        assert_eq!(with_gyro.tasks[i].kind, without_gyro.tasks[i].kind);
        assert_eq!(with_gyro.tasks[i].period_ms, without_gyro.tasks[i].period_ms);
    }
    assert_eq!(with_gyro.tasks[MAG_TASK].kind, PipelineKind::Magnetometer);
    assert_eq!(with_gyro.tasks[MAG_TASK].period_ms, MAG_PERIOD_MS);
    assert_eq!(with_gyro.tasks[ACCEL_TASK].period_ms, ACCEL_PERIOD_MS);
    assert_eq!(with_gyro.tasks[CLOCK_TASK].period_ms, CLOCK_TICK_MS);
    assert_eq!(with_gyro.tasks[GYRO_TASK].kind, PipelineKind::Gyroscope);
    assert!(matches!(with_gyro.tasks[GYRO_TASK].phase, Phase::Calibrating(_)));
    // Every spawned pipeline is due immediately.
    for t in with_gyro.tasks.iter() {
        assert_eq!(t.next_due, 0);
    }
}

#[test]
fn startup_logs_each_clock_config_step_independently() {
    let cfg = ClockConfig { sqw_ok: false, freq_ok: true, datetime_ok: false };
    let s = startup(false, cfg, ClockSourcing::InterruptDriven);
    assert_eq!(s.log.len(), 3);
    let oks: Vec<bool> = s
        .log
        .iter()
        .map(|e| match e.what {
            Outcome::ClockConfigured { ok, .. } => ok,
            _ => panic!("startup logged something besides configuration"),
        })
        .collect();
    assert_eq!(oks, vec![false, true, false]);
    // Degraded: without its square wave the clock pipeline never ticks.
    assert!(matches!(s.tasks[CLOCK_TASK].phase, Phase::Halted));
    let mut s = s;
    let ran = s.run_task(CLOCK_TASK, clock_ok());
    assert!(!ran);
    assert_eq!(s.log.len(), 3);
}

#[test]
fn polled_clock_ticks_without_its_square_wave() {
    // The alternative clock variant: polled on its own schedule, it needs no
    // interrupt configuration at all.
    let cfg = ClockConfig { sqw_ok: false, freq_ok: false, datetime_ok: true };
    let mut s = startup(false, cfg, ClockSourcing::Polled);
    assert!(matches!(s.tasks[CLOCK_TASK].phase, Phase::Reporting(_)));
    assert!(s.run_task(CLOCK_TASK, clock_ok()));
    assert!(matches!(
        s.log.last().unwrap().what,
        Outcome::Reported(Reading::Moment(_))
    ));
}

#[test]
fn first_sample_is_immediate_then_waits_a_full_period() {
    let mut s = startup(false, cfg_all_ok(), ClockSourcing::InterruptDriven);
    assert!(s.run_task(MAG_TASK, mag_ok()));
    let first = *s.log.last().unwrap();
    assert_eq!(first.time, 0);
    assert!(matches!(first.what, Outcome::Reported(Reading::Field { .. })));
    // One millisecond later the pipeline is not due again.
    s.advance(1);
    assert!(!s.run_task(MAG_TASK, mag_ok()));
    // At exactly one period it is.
    s.advance(MAG_PERIOD_MS - 1);
    assert!(s.run_task(MAG_TASK, mag_ok()));
    let second = *s.log.last().unwrap();
    assert_eq!(second.time - first.time, MAG_PERIOD_MS);
}

#[test]
fn transient_fault_logs_and_loop_continues() {
    let mut s = startup(true, cfg_all_ok(), ClockSourcing::InterruptDriven);
    assert!(s.run_task(GYRO_TEMP_TASK, Err(Fault::Spi(SpiFault::Overrun))));
    let e = *s.log.last().unwrap();
    assert_eq!(e.what, Outcome::ReadFailed(Fault::Spi(SpiFault::Overrun)));
    assert!(matches!(s.tasks[GYRO_TEMP_TASK].phase, Phase::Reporting(_)));
    // The loop goes on at the next period.
    s.advance(5000);
    assert!(s.run_task(GYRO_TEMP_TASK, Ok(Sample::Celsius(23))));
    let e = *s.log.last().unwrap();
    assert_eq!(e.what, Outcome::Reported(Reading::Celsius(23)));
}

#[test]
fn clock_read_failure_is_fatal_for_the_clock_alone() {
    let mut s = startup(false, cfg_all_ok(), ClockSourcing::InterruptDriven);
    assert!(s.run_task(CLOCK_TASK, clock_ok()));
    s.advance(CLOCK_TICK_MS);
    assert!(s.run_task(CLOCK_TASK, Err(Fault::RtcComm)));
    let e = *s.log.last().unwrap();
    assert_eq!(e.what, Outcome::ClockReadFatal(Fault::RtcComm));
    assert!(matches!(s.tasks[CLOCK_TASK].phase, Phase::Halted));
    // No further datetime read is ever attempted.
    let clock_events = events_of(&s, CLOCK_TASK).len();
    for _ in 0..10 {
        s.advance(CLOCK_TICK_MS);
        assert!(!s.run_task(CLOCK_TASK, clock_ok()));
    }
    assert_eq!(events_of(&s, CLOCK_TASK).len(), clock_events);
    // While the other pipelines keep running.
    assert!(s.run_task(MAG_TASK, mag_ok()));
    assert!(matches!(
        s.log.last().unwrap().what,
        Outcome::Reported(Reading::Field { .. })
    ));
}

#[test]
fn clock_read_failure_stays_transient_until_datetime_is_set() {
    // The square wave ticks, but the date-time write failed at startup: the
    // device holds no validly set date-time, so a read failure must not be
    // interpreted as fatal and the pipeline keeps ticking.
    let cfg = ClockConfig { sqw_ok: true, freq_ok: true, datetime_ok: false };
    let mut s = startup(false, cfg, ClockSourcing::InterruptDriven);
    assert!(matches!(s.tasks[CLOCK_TASK].phase, Phase::Reporting(_)));
    assert!(s.run_task(CLOCK_TASK, Err(Fault::RtcComm)));
    assert_eq!(s.log.last().unwrap().what, Outcome::ReadFailed(Fault::RtcComm));
    assert!(matches!(s.tasks[CLOCK_TASK].phase, Phase::Reporting(_)));
    // The next tick still reads.
    s.advance(CLOCK_TICK_MS);
    assert!(s.run_task(CLOCK_TASK, clock_ok()));
    assert!(matches!(
        s.log.last().unwrap().what,
        Outcome::Reported(Reading::Moment(_))
    ));
}

#[test]
fn gyroscope_calibrates_then_reports_bias_corrected_values() {
    let mut s = startup(true, cfg_all_ok(), ClockSourcing::InterruptDriven);
    for _ in 0..1000 {
        assert!(s.run_task(GYRO_TASK, gyro_ok(8, -4, 2)));
        s.advance(10);
    }
    match s.tasks[GYRO_TASK].phase {
        Phase::Reporting(offset) => {
            assert_eq!(offset, Axes { x: 8, y: -4, z: 2 });
        },
        _ => panic!("calibration did not finish"),
    }
    let cal_events = events_of(&s, GYRO_TASK);
    assert_eq!(cal_events.len(), 1000);
    assert!(cal_events.iter().all(|e| e.what == Outcome::CalSampleTaken));
    // No reported sample carries an uncalibrated value: the first report
    // comes only now, immediately, already bias-corrected.
    assert!(s.run_task(GYRO_TASK, gyro_ok(10, 10, 10)));
    let e = *s.log.last().unwrap();
    assert_eq!(
        e.what,
        Outcome::Reported(Reading::Angular(AxesI32 { x: 2, y: 14, z: 8 }))
    );
    // Later reports wait the gyroscope's own full period.
    assert!(!s.run_task(GYRO_TASK, gyro_ok(0, 0, 0)));
    s.advance(GYRO_PERIOD_MS);
    assert!(s.run_task(GYRO_TASK, gyro_ok(0, 0, 0)));
}

#[test]
fn calibration_abort_keeps_pipeline_out_of_reporting() {
    let mut s = startup(true, cfg_all_ok(), ClockSourcing::InterruptDriven);
    assert!(s.run_task(GYRO_TASK, Err(Fault::Spi(SpiFault::Framing))));
    let e = *s.log.last().unwrap();
    assert_eq!(e.what, Outcome::CalibrationAborted(Fault::Spi(SpiFault::Framing)));
    assert!(matches!(s.tasks[GYRO_TASK].phase, Phase::Halted));
    s.advance(GYRO_PERIOD_MS);
    assert!(!s.run_task(GYRO_TASK, gyro_ok(0, 0, 0)));
    assert_eq!(events_of(&s, GYRO_TASK).len(), 1);
    // Unrelated pipelines never notice.
    assert!(s.run_task(MAG_TEMP_TASK, Ok(Sample::Celsius(21))));
}

#[test]
fn permanent_gyro_failure_never_alters_other_pipelines() {
    // Two identical schedules; only the gyroscope's device answers differ:
    // healthy in one run, a permanent transport error in the other.
    let mut healthy = startup(true, cfg_all_ok(), ClockSourcing::InterruptDriven);
    let mut broken = startup(true, cfg_all_ok(), ClockSourcing::InterruptDriven);
    for round in 0..40u64 {
        healthy.run_task(GYRO_TASK, gyro_ok(3, 3, 3));
        broken.run_task(GYRO_TASK, Err(Fault::Spi(SpiFault::ModeFault)));
        healthy.run_task(MAG_TASK, mag_ok());
        broken.run_task(MAG_TASK, mag_ok());
        healthy.run_task(CLOCK_TASK, clock_ok());
        broken.run_task(CLOCK_TASK, clock_ok());
        healthy.run_task(ACCEL_TASK, Ok(Sample::Acceleration { x: 1, y: 2, z: round as i32 }));
        broken.run_task(ACCEL_TASK, Ok(Sample::Acceleration { x: 1, y: 2, z: round as i32 }));
        healthy.advance(512);
        broken.advance(512);
    }
    // Outcomes and timing of the unrelated pipelines are identical.
    assert_eq!(events_of(&healthy, MAG_TASK), events_of(&broken, MAG_TASK));
    assert_eq!(events_of(&healthy, CLOCK_TASK), events_of(&broken, CLOCK_TASK));
    assert_eq!(events_of(&healthy, ACCEL_TASK), events_of(&broken, ACCEL_TASK));
    assert_ne!(events_of(&healthy, GYRO_TASK), events_of(&broken, GYRO_TASK));
    // The instrumented transport never saw two transactions in flight.
    assert_eq!(healthy.bus.in_flight, 0);
    assert!(healthy.bus.high_water <= 1);
    assert_eq!(broken.bus.in_flight, 0);
    assert!(broken.bus.high_water <= 1);
}

#[test]
fn scripted_runs_isolate_gyro_failures_too() {
    // The same two-run experiment through whole scripted schedules: the
    // schedules agree everywhere except what the gyroscope's device answers.
    let mut script_ok: Vec<Cmd> = Vec::new();
    let mut script_err: Vec<Cmd> = Vec::new();
    for _ in 0..30 {
        script_ok.push(Cmd::Run(GYRO_TASK, gyro_ok(1, 1, 1)));
        script_err.push(Cmd::Run(GYRO_TASK, Err(Fault::Spi(SpiFault::Crc))));
        for cmd in [
            Cmd::Run(MAG_TASK, mag_ok()),
            Cmd::Run(CLOCK_TASK, clock_ok()),
            Cmd::Advance(1024),
        ] {
            script_ok.push(cmd);
            script_err.push(cmd);
        }
    }
    let mut a = startup(true, cfg_all_ok(), ClockSourcing::InterruptDriven);
    let mut b = startup(true, cfg_all_ok(), ClockSourcing::InterruptDriven);
    a.run_script(&script_ok);
    b.run_script(&script_err);
    assert_eq!(events_of(&a, MAG_TASK), events_of(&b, MAG_TASK));
    assert_eq!(events_of(&a, CLOCK_TASK), events_of(&b, CLOCK_TASK));
    assert_ne!(events_of(&a, GYRO_TASK), events_of(&b, GYRO_TASK));
}

#[test]
fn reports_of_one_pipeline_stand_a_full_period_apart() {
    let mut s = startup(false, cfg_all_ok(), ClockSourcing::InterruptDriven);
    for _ in 0..200u64 {
        s.run_task(MAG_TASK, mag_ok());
        s.run_task(ACCEL_TASK, Ok(Sample::Acceleration { x: 0, y: 0, z: 980 }));
        s.advance(97);
    }
    for (task, period) in [(MAG_TASK, MAG_PERIOD_MS), (ACCEL_TASK, ACCEL_PERIOD_MS)] {
        let events = events_of(&s, task);
        assert!(events.len() > 2);
        assert_eq!(events[0].time, 0);
        for pair in events.windows(2) {
            assert!(pair[1].time - pair[0].time >= period);
        }
    }
}

#[test]
fn decoding_subtracts_offset_without_wrapping() {
    let r = apply_offset(Axes { x: -32768, y: 32767, z: 0 }, Axes { x: 32767, y: -32768, z: -5 });
    assert_eq!(r, AxesI32 { x: -65535, y: 65535, z: 5 });
    let d = decode_sample(
        Sample::GyroRate(Axes { x: 100, y: -100, z: 5 }),
        Axes { x: 32, y: -8, z: 5 },
    );
    assert_eq!(d, Reading::Angular(AxesI32 { x: 68, y: -92, z: 0 }));
    let f = decode_sample(Sample::Field { x: 1, y: 2, z: 3 }, Axes { x: 9, y: 9, z: 9 });
    assert_eq!(f, Reading::Field { x: 1, y: 2, z: 3 });
}
