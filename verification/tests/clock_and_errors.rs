use sensor_hub::clock::{initial_datetime, ones, plan_clock_startup, tens, ClockConfig, ClockSourcing, DateTime};
use sensor_hub::errors::{get_lsm303agr_error_text, get_spi_error_text, MagFault, SpiFault};

#[test]
fn spi_fault_texts_are_exact() {
    assert_eq!(get_spi_error_text(&SpiFault::Framing), "SPI invalid framing");
    assert_eq!(
        get_spi_error_text(&SpiFault::Crc),
        "SPI CRC check error. Is CRC even enabled?"
    );
    assert_eq!(get_spi_error_text(&SpiFault::ModeFault), "SPI mode faulty");
    assert_eq!(get_spi_error_text(&SpiFault::Overrun), "SPI overrun");
}

#[test]
fn mag_fault_texts_are_exact() {
    assert_eq!(
        get_lsm303agr_error_text(&MagFault::Comm),
        "I2C communication error."
    );
    assert_eq!(
        get_lsm303agr_error_text(&MagFault::InvalidInputData),
        "Invalid input data."
    );
}

#[test]
fn digit_helpers_split_decimal_fields() {
    assert_eq!(ones(37), 7);
    assert_eq!(tens(37), 3);
    assert_eq!(ones(5), 5);
    assert_eq!(tens(5), 0);
    assert_eq!(tens(59), 5);
    assert_eq!(ones(0), 0);
    assert_eq!(tens(0), 0);
}

#[test]
fn initial_datetime_is_the_known_startup_value() {
    let dt = initial_datetime();
    assert_eq!(
        dt,
        DateTime { year: 2025, month: 8, day: 10, hour: 1, minute: 32, second: 33 }
    );
    assert!(dt.is_valid());
}

fn date(year: u16, month: u8, day: u8) -> DateTime {
    DateTime { year, month, day, hour: 0, minute: 0, second: 0 }
}

#[test]
fn datetime_validity_handles_leap_years() {
    assert!(date(2024, 2, 29).is_valid());
    assert!(!date(2025, 2, 29).is_valid());
    assert!(date(2000, 2, 29).is_valid());
    assert!(!date(1900, 2, 29).is_valid());
    assert!(date(2025, 2, 28).is_valid());
}

#[test]
fn datetime_validity_checks_every_field() {
    assert!(!date(2025, 0, 1).is_valid());
    assert!(!date(2025, 13, 1).is_valid());
    assert!(!date(2025, 4, 31).is_valid());
    assert!(date(2025, 4, 30).is_valid());
    assert!(!date(2025, 1, 0).is_valid());
    let mut dt = date(2025, 6, 15);
    dt.hour = 24;
    assert!(!dt.is_valid());
    dt.hour = 23;
    dt.minute = 60;
    assert!(!dt.is_valid());
    dt.minute = 59;
    dt.second = 60;
    assert!(!dt.is_valid());
    dt.second = 59;
    assert!(dt.is_valid());
}

#[test]
fn clock_startup_degrades_instead_of_aborting() {
    let all_ok = plan_clock_startup(
        ClockConfig { sqw_ok: true, freq_ok: true, datetime_ok: true },
        ClockSourcing::InterruptDriven,
    );
    assert!(all_ok.ticks_enabled);
    assert!(all_ok.fatal_reads_armed);
    assert!(!all_ok.degraded);
    assert!(all_ok.proceed);

    let no_sqw = plan_clock_startup(
        ClockConfig { sqw_ok: false, freq_ok: true, datetime_ok: true },
        ClockSourcing::InterruptDriven,
    );
    assert!(!no_sqw.ticks_enabled);
    assert!(no_sqw.degraded);
    assert!(no_sqw.proceed);

    // The sub-steps are independent: a failed date-time write still leaves
    // the interrupt ticking, but read failures must then stay transient —
    // fatal interpretation presupposes a successfully set date-time.
    let no_dt = plan_clock_startup(
        ClockConfig { sqw_ok: true, freq_ok: true, datetime_ok: false },
        ClockSourcing::InterruptDriven,
    );
    assert!(no_dt.ticks_enabled);
    assert!(!no_dt.fatal_reads_armed);
    assert!(no_dt.degraded);
    assert!(no_dt.proceed);

    let nothing = plan_clock_startup(
        ClockConfig { sqw_ok: false, freq_ok: false, datetime_ok: false },
        ClockSourcing::InterruptDriven,
    );
    assert!(!nothing.ticks_enabled);
    assert!(!nothing.fatal_reads_armed);
    assert!(nothing.degraded);
    assert!(nothing.proceed);
}
