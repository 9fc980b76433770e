//! Angle control for a bank of radio-control servos.
//!
//! Angles are whole thousandths of a degree and pulse widths whole
//! microseconds, so every conversion is exact integer arithmetic with a single
//! truncation at the tick count. The servo types hold calibration and the last
//! commanded angle; each command returns the duty value that the caller hands
//! to the signal generator.

pub mod array;
pub mod clock;
pub mod handle;
pub mod motion;
pub mod pio_servo;
pub mod pulse;
pub mod pwm_servo;
