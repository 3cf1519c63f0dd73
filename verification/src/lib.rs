//! Single-zone thermal regulation for a grow box.
//!
//! Once per control period the surrounding firmware attempts one temperature
//! measurement and hands the result to [`GrowboxAPI::update_heater`]. The
//! regulator compares the reading with a setpoint and a hysteresis band,
//! records the levels the heater and fault-indicator outputs are to hold, and
//! returns the writes the firmware has to perform. While the sensor cannot be
//! read the heater is forced off and the fault indicator is lit.
//!
//! All temperatures are signed tenths of a degree (`280` is 28.0 degrees).

pub mod decision;
pub mod growbox;
pub mod heater;
pub mod pin;
pub mod temp_sensor;

pub use crate::decision::HeatingDecision;
pub use crate::growbox::{CycleOutcome, GrowboxAPI, Regulator};
pub use crate::heater::{Heater, HeaterAPI};
pub use crate::pin::PinLevel;
pub use crate::temp_sensor::{Sensor, SensorError, DHT11API};
