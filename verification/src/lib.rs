//! Driver core for a CPU cooler's built-in digital display.
//!
//! The library turns sensor samples (CPU load and temperature, carried as
//! integer tenths) into the fixed seven-byte reports that the device's
//! human-interface-device transport expects, and houses the display-mode
//! scheduler that cycles between views. Reading the OS sensors and writing
//! to the device are left to the surrounding program.

pub mod math;
pub mod policy;
pub mod report;
pub mod sampler;
pub mod scheduler;
pub mod temperature;
