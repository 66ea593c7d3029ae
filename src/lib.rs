//! Driver logic for the VL53L1X time-of-flight ranging sensor.
//!
//! The library never touches the bus itself: it builds the byte frames the
//! sensor expects, decodes what the sensor answers, and decides what to do
//! next. A caller owns the I2C connection and carries the frames across.

pub mod registers;
pub mod sample;
pub mod distance_mode;
pub mod error;
pub mod roi;
pub mod config;
pub mod device;
pub mod bring_up;
