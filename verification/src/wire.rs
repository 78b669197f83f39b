//! What goes over the wire: the command bytes and the two-byte response.

use byteorder::{BigEndian, ByteOrder};
use vstd::prelude::*;

use crate::calibration::{
    calculate_relative_humidity, calculate_temperature, humidity_units, temperature_units,
};

verus! {

/// Standard I²C address of the Si7021: `0x40`.
pub const SI7021_I2C_ADDRESS: u16 = 0x40;

/// Starts a humidity conversion; the device measures and latches the
/// temperature along with it.
pub const MEASURE_RELATIVE_HUMIDITY: u8 = 0xE5;

/// Starts a temperature conversion.
pub const MEASURE_TEMPERATURE: u8 = 0xE3;

/// Reads the temperature latched by the most recent humidity conversion,
/// without starting a conversion.
pub const READ_TEMPERATURE: u8 = 0xE0;

/// The number of bytes in every response of the device.
pub const RESPONSE_LEN: usize = 2;

/// What can be asked of the sensor.
#[derive(Clone, Copy, Debug, PartialEq, Eq, Structural)]
pub enum Measurement {
    /// A new measurement of the relative humidity.
    RelativeHumidity,
    /// A new measurement of the temperature.
    Temperature,
    /// The temperature that the most recent humidity measurement took. What
    /// the device answers when it has measured no humidity yet is up to the
    /// device; the driver keeps no record of earlier measurements.
    LastTemperature,
}

impl Measurement {
    /// The command byte that asks the device for this measurement.
    pub open spec fn command_byte(self) -> u8 {
        match self {
            Measurement::RelativeHumidity => MEASURE_RELATIVE_HUMIDITY,
            Measurement::Temperature => MEASURE_TEMPERATURE,
            Measurement::LastTemperature => READ_TEMPERATURE,
        }
    }

    /// The calibrated value, in units, that this measurement gives for a raw
    /// reading: humidity goes through the saturating humidity function, both
    /// temperature measurements through the temperature function.
    pub open spec fn calibrated(self, raw: int) -> int {
        match self {
            Measurement::RelativeHumidity => humidity_units(raw),
            Measurement::Temperature => temperature_units(raw),
            Measurement::LastTemperature => temperature_units(raw),
        }
    }

    /// The calibrated value, in units, that a response gives for this
    /// measurement: decoded big-endian first, then put through the
    /// measurement's transfer function.
    pub open spec fn reading(self, response: [u8; 2]) -> int {
        self.calibrated(big_endian_word(response))
    }

    /// The command byte to write to the device for this measurement.
    pub fn command(self) -> (byte: u8)
        ensures
            byte == self.command_byte(),
            self == Measurement::RelativeHumidity ==> byte == 0xE5,
            self == Measurement::Temperature ==> byte == 0xE3,
            self == Measurement::LastTemperature ==> byte == 0xE0,
    {
        match self {
            Measurement::RelativeHumidity => MEASURE_RELATIVE_HUMIDITY,
            Measurement::Temperature => MEASURE_TEMPERATURE,
            Measurement::LastTemperature => READ_TEMPERATURE,
        }
    }

    /// Applies this measurement's transfer function to a raw reading.
    pub fn calibrate(self, raw: u16) -> (units: i32)
        ensures
            units == self.calibrated(raw as int),
    {
        match self {
            Measurement::RelativeHumidity => calculate_relative_humidity(raw),
            Measurement::Temperature => calculate_temperature(raw),
            Measurement::LastTemperature => calculate_temperature(raw),
        }
    }
}

/// The unsigned 16-bit integer that two bytes spell in big-endian order: the
/// first byte is the more significant one.
pub open spec fn big_endian_word(bytes: [u8; 2]) -> int {
    bytes@[0] as int * 256 + bytes@[1] as int
}

/// Calls `byteorder::BigEndian::read_u16` on the two bytes of a response.
///
/// Trusted, not proved: that the call returns the big-endian reading of the
/// first two bytes of its argument, which is `u16::from_be_bytes` in the
/// crate's source. The call panics on fewer than two bytes; the array type
/// rules that out.
#[verifier::external_body]
fn read_big_endian(bytes: &[u8; 2]) -> (word: u16)
    ensures
        word as int == big_endian_word(*bytes),
{
    BigEndian::read_u16(bytes)
}

/// Decodes the two bytes of a response into the raw reading, before any
/// transfer function is applied.
pub fn decode_response(bytes: [u8; 2]) -> (raw: u16)
    ensures
        raw as int == big_endian_word(bytes),
        raw as int == bytes@[0] as int * 256 + bytes@[1] as int,
{
    read_big_endian(&bytes)
}

} // verus!
