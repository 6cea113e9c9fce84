//! Host telemetry for a small serial display: samples of CPU, memory and GPU
//! load are normalised into display quantities, packed into a 16-byte frame
//! and streamed to a USB serial device that may come and go.
//!
//! - `units`: the exponent and the scaled value in which a magnitude is shown.
//! - `helpers`: means, unit fields and the numbers at the start of readings.
//! - `report`: entries of the GPU query tool's XML report.
//! - `system_info`: the GPU sample and the snapshot of one sampling cycle.
//! - `frame`: the snapshot as bytes on the wire.
//! - `connection`: finding the display, and the life cycle of the link to it.
//!
//! The library reads no counters and opens no device: its caller hands it
//! readings and outcomes, and does what it decides.

pub mod connection;
pub mod frame;
pub mod helpers;
pub mod report;
pub mod system_info;
pub mod units;
