//! Core logic of a sensor-sampling firmware: periodic pipelines for a
//! magnetometer, an accelerometer, a gyroscope, two temperature channels and a
//! real-time clock share one physical bus through an arbiter, and a cooperative
//! scheduler interleaves them. The hardware transports themselves live outside
//! this crate; here stand the decisions: when a pipeline reads, how bus access
//! is serialized, how the gyroscope calibration filter converges, how read
//! faults are classified, and which failures stop which pipeline.

pub mod bus;
pub mod calib;
pub mod clock;
pub mod errors;
pub mod pipeline;
pub mod sched;
