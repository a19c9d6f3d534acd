//! A verified model of a single-LED blinker firmware.
//!
//! The firmware brings the hardware up once, then drives one digital output
//! line high and low forever on a fixed cadence, emitting a log line on each
//! transition and busy-waiting on a monotonic clock in between. The model
//! keeps the line level, the clock and the emitted log lines as plain state,
//! so that the alternation, the timing and the exact log sequence are proved;
//! a host or target binary performs the actual pin writes and printing.

pub mod clock;
pub mod device;
pub mod pin;
