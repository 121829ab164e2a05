use sensor_hub::calib::{calibrate, Axes, Calibrator, CAL_SAMPLE_COUNT};

fn axes(x: i16, y: i16, z: i16) -> Axes {
    Axes { x, y, z }
}

#[test]
fn fresh_calibrator_is_empty() {
    let c = Calibrator::new();
    assert_eq!(c.taken, 0);
    assert_eq!(c.accepted, 0);
    assert_eq!(c.avg, axes(0, 0, 0));
    assert!(!c.is_complete());
}

#[test]
fn sample_exactly_at_threshold_is_included() {
    // The running average starts at zero, so a deviation of exactly 50 on
    // every axis must be accepted.
    let mut c = Calibrator::new();
    c.feed(axes(50, -50, 50));
    assert_eq!(c.taken, 1);
    assert_eq!(c.accepted, 1);
    assert_eq!(c.avg, axes(50, -50, 50));
}

#[test]
fn sample_one_past_threshold_is_excluded() {
    let mut c = Calibrator::new();
    c.feed(axes(51, 0, 0));
    assert_eq!(c.taken, 1);
    assert_eq!(c.accepted, 0);
    assert_eq!(c.avg, axes(0, 0, 0));
}

#[test]
fn threshold_is_measured_from_running_average() {
    let mut c = Calibrator::new();
    c.feed(axes(10, 0, 0));
    assert_eq!(c.avg, axes(10, 0, 0));
    // Deviation of exactly 50 from the running average of 10: included.
    c.feed(axes(60, 0, 0));
    assert_eq!(c.accepted, 2);
    assert_eq!(c.avg, axes(35, 0, 0));
    // Deviation of 51 from the running average of 35: excluded.
    c.feed(axes(86, 0, 0));
    assert_eq!(c.taken, 3);
    assert_eq!(c.accepted, 2);
    assert_eq!(c.avg, axes(35, 0, 0));
}

#[test]
fn one_axis_past_threshold_rejects_whole_sample() {
    let mut c = Calibrator::new();
    c.feed(axes(0, 0, -51));
    assert_eq!(c.accepted, 0);
}

#[test]
fn running_average_truncates_toward_zero() {
    let mut c = Calibrator::new();
    c.feed(axes(-1, 1, 0));
    c.feed(axes(-1, 1, 0));
    c.feed(axes(-3, 3, 0));
    // Sums are (-5, 5, 0) over 3 accepted samples: -5 / 3 truncates to -1.
    assert_eq!(c.accepted, 3);
    assert_eq!(c.avg, axes(-1, 1, 0));
}

#[test]
fn convergence_excludes_spikes_from_offset() {
    // 1000 synthetic samples: 950 quiet ones uniformly spread within +/-10 of
    // zero on each axis, 50 spikes of magnitude >= 500. The offset must be
    // the integer-truncated mean of the quiet samples alone.
    let mut samples: Vec<Axes> = Vec::new();
    let mut quiet_sum = (0i64, 0i64, 0i64);
    let mut quiet_n = 0i64;
    let mut quiet_phase: i16 = 0;
    for i in 0..CAL_SAMPLE_COUNT {
        if i % 20 == 19 {
            // A spike; alternate its sign and the axis it hits.
            let s = if i % 40 == 19 {
                axes(600, 0, 0)
            } else {
                axes(0, -500, 700)
            };
            samples.push(s);
        } else {
            // Quiet samples cycling through -10..=10.
            let v = (quiet_phase % 21) - 10;
            quiet_phase += 1;
            let s = axes(v, -v, v / 2);
            quiet_sum.0 += s.x as i64;
            quiet_sum.1 += s.y as i64;
            quiet_sum.2 += s.z as i64;
            quiet_n += 1;
            samples.push(s);
        }
    }
    assert_eq!(quiet_n, 950);
    let c = calibrate(&samples);
    assert!(c.is_complete());
    assert_eq!(c.accepted, 950);
    let expect = |sum: i64| -> i16 {
        let q = sum.abs() / quiet_n;
        if sum < 0 { -(q as i16) } else { q as i16 }
    };
    let off = c.offset();
    assert_eq!(off.x, expect(quiet_sum.0));
    assert_eq!(off.y, expect(quiet_sum.1));
    assert_eq!(off.z, expect(quiet_sum.2));
}

#[test]
fn full_pass_of_identical_samples_returns_them() {
    let mut samples: Vec<Axes> = Vec::new();
    for _ in 0..CAL_SAMPLE_COUNT {
        samples.push(axes(7, -3, 12));
    }
    let c = calibrate(&samples);
    assert!(c.is_complete());
    assert_eq!(c.accepted, CAL_SAMPLE_COUNT);
    assert_eq!(c.offset(), axes(7, -3, 12));
}
