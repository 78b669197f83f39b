//! Driver logic for the Silicon Labs Si7021 hygrometer and thermometer.
//!
//! The crate holds everything the driver decides and computes: which command
//! byte selects which measurement, how the two bytes of a response form a raw
//! reading, how an exchange with the device proceeds when a bus step succeeds
//! or fails, and the transfer functions that turn a raw reading into degrees
//! Celsius or percent relative humidity. The driver wraps the transport handle
//! and lends it out; performing a bus step on it is left to the caller.

pub mod calibration;
pub mod driver;
pub mod exchange;
pub mod wire;

pub use calibration::{
    calculate_relative_humidity, calculate_temperature, UNITS_PER_ONE,
};
pub use driver::Si7021;
pub use exchange::{BusStep, Event, Exchange};
pub use wire::{
    decode_response, Measurement, MEASURE_RELATIVE_HUMIDITY, MEASURE_TEMPERATURE,
    READ_TEMPERATURE, RESPONSE_LEN, SI7021_I2C_ADDRESS,
};
