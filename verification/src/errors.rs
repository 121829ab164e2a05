//! Classification of device read faults. Each transport reports a small fixed
//! set of conditions; a pipeline logs a human-readable cause and decides from
//! the fault alone whether to continue.

use vstd::prelude::*;

verus! {

/// Fault reported by the four-wire chip-select transport (the gyroscope's bus).
#[derive(Clone, Copy, PartialEq, Eq, Structural, Debug)]
pub enum SpiFault {
    Framing,
    Crc,
    ModeFault,
    Overrun,
}

/// Fault reported by the drivers on the two-wire addressable transport
/// (magnetometer, accelerometer and their temperature channel).
#[derive(Clone, Copy, PartialEq, Eq, Structural, Debug)]
pub enum MagFault {
    Comm,
    InvalidInputData,
}

/// Any fault a device read can report, tagged by the transport it came from.
/// The clock's transport reports plain communication failures.
#[derive(Clone, Copy, PartialEq, Eq, Structural, Debug)]
pub enum Fault {
    Spi(SpiFault),
    Mag(MagFault),
    RtcComm,
}

/// The log line that names a chip-select transport fault.
pub open spec fn spi_error_text(err: SpiFault) -> Seq<char> {
    match err {
        SpiFault::Framing => "SPI invalid framing"@,
        SpiFault::Crc => "SPI CRC check error. Is CRC even enabled?"@,
        SpiFault::ModeFault => "SPI mode faulty"@,
        SpiFault::Overrun => "SPI overrun"@,
    }
}

/// The log line that names a fault of the two-wire drivers.
pub open spec fn mag_error_text(err: MagFault) -> Seq<char> {
    match err {
        MagFault::Comm => "I2C communication error."@,
        MagFault::InvalidInputData => "Invalid input data."@,
    }
}

pub fn get_spi_error_text(err: &SpiFault) -> (r: &'static str)
    ensures
        r@ == spi_error_text(*err),
{
    match err {
        SpiFault::Framing => "SPI invalid framing",
        SpiFault::Crc => "SPI CRC check error. Is CRC even enabled?",
        SpiFault::ModeFault => "SPI mode faulty",
        SpiFault::Overrun => "SPI overrun",
    }
}

pub fn get_lsm303agr_error_text(err: &MagFault) -> (r: &'static str)
    ensures
        r@ == mag_error_text(*err),
{
    match err {
        MagFault::Comm => "I2C communication error.",
        MagFault::InvalidInputData => "Invalid input data.",
    }
}

} // verus!
