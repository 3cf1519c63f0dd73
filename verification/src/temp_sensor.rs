//! The temperature sensor's reading and the fault indicator that goes with it.

use crate::pin::PinLevel;
use vstd::prelude::*;

verus! {

/// Why a measurement attempt yielded no reading.
#[derive(Clone, Copy, Debug, PartialEq, Eq, Structural)]
pub enum SensorError {
    /// The sensor did not answer in time.
    Timeout,
    /// The received frame failed its checksum.
    CrcMismatch,
    /// The data line could not be driven or read.
    Gpio,
}

/// A sample as a mathematical integer, if there is one.
pub open spec fn sample_value(sample: Option<i16>) -> Option<int> {
    match sample {
        Some(temperature) => Some(temperature as int),
        None => None,
    }
}

/// The temperature a measurement attempt delivered, if it delivered one.
///
/// Every failure, whatever its cause, stands for an absent sample.
pub open spec fn sample_of(attempt: Result<i16, SensorError>) -> Option<int> {
    match attempt {
        Ok(temperature) => Some(temperature as int),
        Err(_) => None,
    }
}

/// What a [`DHT11API`] stands for: the level of the fault-indicator output.
pub struct Sensor {
    /// Level the fault-indicator output was last driven to.
    pub error_pin: PinLevel,
}

impl Sensor {
    /// Whether the fault indicator is lit.
    pub open spec fn fault_shown(self) -> bool {
        self.error_pin == PinLevel::High
    }

    /// The sensor after the fault indicator was lit.
    pub open spec fn led_on(self) -> Sensor {
        Sensor { error_pin: PinLevel::High }
    }

    /// The sensor after the fault indicator was put out.
    pub open spec fn led_off(self) -> Sensor {
        Sensor { error_pin: PinLevel::Low }
    }

    /// The sensor after one measurement attempt: the indicator is lit exactly
    /// when the attempt failed.
    pub open spec fn after_read(self, attempt: Result<i16, SensorError>) -> Sensor {
        if attempt is Ok {
            self.led_off()
        } else {
            self.led_on()
        }
    }
}

/// The reading side of the temperature sensor, with its fault indicator.
///
/// The indicator is lit by a high output. It shows whether the most recent
/// measurement attempt failed.
pub struct DHT11API {
    dht11_error_pin: PinLevel,
}

impl View for DHT11API {
    type V = Sensor;

    closed spec fn view(&self) -> Sensor {
        Sensor { error_pin: self.dht11_error_pin }
    }
}

impl DHT11API {
    /// Takes over a fault-indicator output that currently holds
    /// `dht11_error_pin`.
    pub fn new(dht11_error_pin: PinLevel) -> (sensor: DHT11API)
        ensures
            sensor@ == (Sensor { error_pin: dht11_error_pin }),
        no_unwind
    {
        DHT11API { dht11_error_pin }
    }

    /// Takes in the result of one measurement attempt.
    ///
    /// A temperature puts the fault indicator out and is handed on. A failure
    /// lights the indicator and yields no sample; nothing of a failed attempt
    /// is ever passed on as a value. The attempt is not repeated.
    pub fn read(&mut self, attempt: Result<i16, SensorError>) -> (sample: Option<i16>)
        ensures
            final(self)@ == old(self)@.after_read(attempt),
            sample == attempt.ok(),
        no_unwind
    {
        match attempt {
            Ok(temperature) => {
                self.error_led_off();
                Some(temperature)
            },
            Err(_) => {
                self.error_led_on();
                None
            },
        }
    }

    /// Puts the fault indicator out.
    pub fn error_led_off(&mut self)
        ensures
            final(self)@ == old(self)@.led_off(),
        no_unwind
    {
        self.dht11_error_pin = PinLevel::Low;
    }

    /// Lights the fault indicator.
    pub fn error_led_on(&mut self)
        ensures
            final(self)@ == old(self)@.led_on(),
        no_unwind
    {
        self.dht11_error_pin = PinLevel::High;
    }

    /// The level the fault-indicator output holds.
    pub fn error_pin(&self) -> (level: PinLevel)
        ensures
            level == self@.error_pin,
        no_unwind
    {
        self.dht11_error_pin
    }

    /// Whether the fault indicator is lit.
    pub fn fault_shown(&self) -> (lit: bool)
        ensures
            lit == self@.fault_shown(),
        no_unwind
    {
        self.dht11_error_pin == PinLevel::High
    }
}

} // verus!
