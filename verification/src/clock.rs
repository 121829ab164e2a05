//! The real-time-clock side of the system: the calendar value the clock holds,
//! the digit helpers the log line uses, and the startup-configuration policy.
//! Configuration has three independent sub-steps — route the square-wave output
//! to the interrupt pin, set its frequency, set the initial date-time — and the
//! failure of any one is logged but never aborts the others, nor task startup:
//! the system degrades to running without interrupt-backed clock ticks.

use vstd::arithmetic::div_mod::lemma_fundamental_div_mod;
use vstd::prelude::*;

verus! {

/// A calendar date-time as plain values, the shape the clock device stores:
/// year, month, day, and a 24-hour time of day.
#[derive(Clone, Copy, PartialEq, Eq, Structural, Debug)]
pub struct DateTime {
    pub year: u16,
    pub month: u8,
    pub day: u8,
    pub hour: u8,
    pub minute: u8,
    pub second: u8,
}

pub open spec fn is_leap_year(y: int) -> bool {
    y % 4 == 0 && (y % 100 != 0 || y % 400 == 0)
}

pub open spec fn days_in_month(y: int, m: int) -> int {
    if m == 2 {
        if is_leap_year(y) {
            29
        } else {
            28
        }
    } else if m == 4 || m == 6 || m == 9 || m == 11 {
        30
    } else {
        31
    }
}

impl DateTime {
    /// A date-time the clock device can hold: a real calendar date (leap years
    /// included) and a 24-hour time of day.
    pub open spec fn valid(self) -> bool {
        &&& 1 <= self.month <= 12
        &&& 1 <= self.day <= days_in_month(self.year as int, self.month as int)
        &&& self.hour < 24
        &&& self.minute < 60
        &&& self.second < 60
    }

    pub fn is_valid(&self) -> (b: bool)
        ensures
            b == self.valid(),
    {
        if self.month < 1 || self.month > 12 {
            return false;
        }
        let leap = self.year % 4 == 0 && (self.year % 100 != 0 || self.year % 400 == 0);
        let dim: u8 = if self.month == 2 {
            if leap {
                29
            } else {
                28
            }
        } else if self.month == 4 || self.month == 6 || self.month == 9 || self.month == 11 {
            30
        } else {
            31
        };
        1 <= self.day && self.day <= dim && self.hour < 24 && self.minute < 60 && self.second < 60
    }
}

/// The known date-time written to the clock at startup.
pub open spec fn initial_datetime_spec() -> DateTime {
    DateTime { year: 2025, month: 8, day: 10, hour: 1, minute: 32, second: 33 }
}

pub fn initial_datetime() -> (dt: DateTime)
    ensures
        dt == initial_datetime_spec(),
        dt.valid(),
{
    DateTime { year: 2025, month: 8, day: 10, hour: 1, minute: 32, second: 33 }
}

/// The ones digit of a decimal field of the log line.
pub fn ones(num: u32) -> (r: u32)
    ensures
        r == num % 10,
{
    num % 10
}

/// Everything above the ones digit of a decimal field of the log line.
pub fn tens(num: u32) -> (r: u32)
    ensures
        r == num / 10,
{
    num / 10
}

/// Printing the tens half followed by the ones digit loses nothing: the two
/// halves reassemble the number.
pub proof fn lemma_digits_reconstruct(num: u32)
    ensures
        (num / 10) * 10 + num % 10 == num,
{
    lemma_fundamental_div_mod(num as int, 10);
}

/// How the clock pipeline sources its ticks: woken by the square-wave edge
/// on the interrupt line (the canonical variant), or reading the device on
/// its own polling schedule with the same suspension contract.
#[derive(Clone, Copy, PartialEq, Eq, Structural, Debug)]
pub enum ClockSourcing {
    InterruptDriven,
    Polled,
}

/// What each of the three independent configuration sub-steps reported.
#[derive(Clone, Copy, PartialEq, Eq, Structural, Debug)]
pub struct ClockConfig {
    /// The square-wave output was routed to the interrupt line.
    pub sqw_ok: bool,
    /// The square-wave frequency was set.
    pub freq_ok: bool,
    /// The initial date-time was written.
    pub datetime_ok: bool,
}

/// The startup policy derived from the configuration outcomes.
#[derive(Clone, Copy, PartialEq, Eq, Structural, Debug)]
pub struct ClockStartupPlan {
    /// Edges will arrive on the interrupt line, so the clock pipeline ticks.
    pub ticks_enabled: bool,
    /// The date-time was successfully set, so a later read failure may be
    /// interpreted as fatal; until then every read failure stays transient.
    pub fatal_reads_armed: bool,
    /// Some sub-step failed; the system runs on in a degraded mode.
    pub degraded: bool,
    /// Startup always proceeds: no configuration failure aborts the tasks.
    pub proceed: bool,
}

/// Degrade gracefully: interrupt-driven ticks need both square-wave
/// sub-steps, while a polled clock ticks on its own schedule whatever they
/// reported; only a successfully set date-time arms the fatal interpretation
/// of read failures. Any failure is only reported, and startup goes ahead
/// regardless.
pub fn plan_clock_startup(cfg: ClockConfig, sourcing: ClockSourcing) -> (r: ClockStartupPlan)
    ensures
        r.ticks_enabled == (sourcing is Polled || (cfg.sqw_ok && cfg.freq_ok)),
        r.fatal_reads_armed == cfg.datetime_ok,
        r.degraded == !(cfg.sqw_ok && cfg.freq_ok && cfg.datetime_ok),
        r.proceed,
{
    let edges_ok = match sourcing {
        ClockSourcing::Polled => true,
        ClockSourcing::InterruptDriven => cfg.sqw_ok && cfg.freq_ok,
    };
    ClockStartupPlan {
        ticks_enabled: edges_ok,
        fatal_reads_armed: cfg.datetime_ok,
        degraded: !(cfg.sqw_ok && cfg.freq_ok && cfg.datetime_ok),
        proceed: true,
    }
}

} // verus!
