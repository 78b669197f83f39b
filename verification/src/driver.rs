//! The driver instance: the owner of the transport handle.

use vstd::prelude::*;

use crate::exchange::{BusStep, Exchange};
use crate::wire::Measurement;

verus! {

/// Read temperature and relative humidity from a Si7021.
///
/// The driver wraps exactly one transport handle and keeps nothing else: no
/// reading is cached and no record is kept of which measurement came before.
#[derive(Clone, Debug)]
pub struct Si7021<T> {
    device: T,
}

impl<T> Si7021<T> {
    /// The transport handle that the driver wraps.
    pub closed spec fn transport(self) -> T {
        self.device
    }

    /// Create a new instance wrapping the given transport handle. Nothing is
    /// written to or read from the bus.
    pub fn new(device: T) -> (sensor: Si7021<T>)
        ensures
            sensor.transport() == device,
    {
        Si7021 { device }
    }

    /// Lends the transport handle to the caller, who performs on it the bus
    /// step that an exchange asks for. The driver itself never changes it.
    pub fn device_mut(&mut self) -> (device: &mut T)
        ensures
            *device == old(self).transport(),
            final(self).transport() == *final(device),
    {
        &mut self.device
    }

    /// Starts the exchange that measures the relative humidity: the command
    /// byte `0xE5` is due. The device measures the temperature on the way
    /// and latches it; the driver does not fetch that value by itself.
    pub fn relative_humidity<E>(&self) -> (exchange: Exchange<E>)
        ensures
            exchange == Exchange::<E>::initial(Measurement::RelativeHumidity),
            exchange.request_of() == Some(BusStep::Write(0xE5)),
    {
        Exchange::begin(Measurement::RelativeHumidity)
    }

    /// Starts the exchange that measures the temperature: the command byte
    /// `0xE3` is due.
    pub fn temperature_celsius<E>(&self) -> (exchange: Exchange<E>)
        ensures
            exchange == Exchange::<E>::initial(Measurement::Temperature),
            exchange.request_of() == Some(BusStep::Write(0xE3)),
    {
        Exchange::begin(Measurement::Temperature)
    }

    /// Every humidity measurement measures the temperature first. Starts the
    /// exchange that reads the most recently measured temperature: the
    /// command byte `0xE0` is due, and no new conversion takes place.
    pub fn last_temperature<E>(&self) -> (exchange: Exchange<E>)
        ensures
            exchange == Exchange::<E>::initial(Measurement::LastTemperature),
            exchange.request_of() == Some(BusStep::Write(0xE0)),
    {
        Exchange::begin(Measurement::LastTemperature)
    }
}

} // verus!
