//! The regulator: one decision per control cycle.

use crate::decision::{decision_for, effective_high, effective_low, HeatingDecision};
use crate::heater::{Heater, HeaterAPI};
use crate::pin::PinLevel;
use crate::temp_sensor::{sample_of, sample_value, Sensor, SensorError, DHT11API};
use vstd::prelude::*;

verus! {

/// What one control cycle decided and the writes it asks for on the outputs.
#[derive(Clone, Copy, Debug, PartialEq, Eq)]
pub struct CycleOutcome {
    /// The decision taken for the heater.
    pub decision: HeatingDecision,
    /// The level to drive the fault-indicator output to.
    pub indicator: PinLevel,
    /// The level to drive the heater output to; `None` where no command is
    /// issued and the output keeps the level it has.
    pub heater: Option<PinLevel>,
}

/// What a [`GrowboxAPI`] stands for: its configuration and the state of its
/// two outputs.
pub struct Regulator {
    /// Target temperature.
    pub setpoint: int,
    /// Half-width of the dead band around the setpoint.
    pub band: nat,
    /// The heating actuator.
    pub heater: Heater,
    /// The sensor's fault indicator.
    pub sensor: Sensor,
}

impl Regulator {
    /// The decision this configuration takes for a sample.
    pub open spec fn decision(self, sample: Option<int>) -> HeatingDecision {
        decision_for(self.setpoint, self.band, sample)
    }

    /// Whether an attempt delivered a temperature inside the dead band, edges
    /// included.
    pub open spec fn in_band(self, attempt: Result<i16, SensorError>) -> bool {
        attempt matches Ok(temperature) && effective_low(self.setpoint, self.band) <= temperature
            <= effective_high(self.setpoint, self.band)
    }

    /// The regulator after the sensor was read: only the fault indicator
    /// changes.
    pub open spec fn after_read(self, attempt: Result<i16, SensorError>) -> Regulator {
        Regulator { sensor: self.sensor.after_read(attempt), ..self }
    }

    /// The regulator after one control cycle.
    pub open spec fn after_cycle(self, attempt: Result<i16, SensorError>) -> Regulator {
        Regulator {
            heater: self.heater.after(self.decision(sample_of(attempt))),
            sensor: self.sensor.after_read(attempt),
            ..self
        }
    }

    /// What one control cycle reports.
    pub open spec fn outcome(self, attempt: Result<i16, SensorError>) -> CycleOutcome {
        CycleOutcome {
            decision: self.decision(sample_of(attempt)),
            indicator: self.sensor.after_read(attempt).error_pin,
            heater: self.heater.write_for(self.decision(sample_of(attempt))),
        }
    }

    /// The regulator after a run of control cycles, one per attempt, in order.
    pub open spec fn after_cycles(self, attempts: Seq<Result<i16, SensorError>>) -> Regulator
        decreases attempts.len(),
    {
        if attempts.len() == 0 {
            self
        } else {
            self.after_cycles(attempts.drop_last()).after_cycle(attempts.last())
        }
    }

    /// The commands issued to the heater over a run of control cycles, each
    /// as the level it writes, in order. A cycle that holds issues none.
    pub open spec fn heater_writes(self, attempts: Seq<Result<i16, SensorError>>) -> Seq<PinLevel>
        decreases attempts.len(),
    {
        if attempts.len() == 0 {
            Seq::empty()
        } else {
            let before = self.heater_writes(attempts.drop_last());
            match self.after_cycles(attempts.drop_last()).outcome(attempts.last()).heater {
                Some(level) => before.push(level),
                None => before,
            }
        }
    }
}

/// A single-zone thermal regulator.
///
/// It holds a setpoint and the half-width of a dead band around it, both in
/// tenths of a degree, and owns the heater and the sensor's fault indicator.
/// The band cannot be negative, so the band's lower edge is never above its
/// upper edge.
pub struct GrowboxAPI {
    heater_api: HeaterAPI,
    temp_sensor_api: DHT11API,
    target_temp: i16,
    temp_variance: u16,
}

impl View for GrowboxAPI {
    type V = Regulator;

    closed spec fn view(&self) -> Regulator {
        Regulator {
            setpoint: self.target_temp as int,
            band: self.temp_variance as nat,
            heater: self.heater_api@,
            sensor: self.temp_sensor_api@,
        }
    }
}

impl GrowboxAPI {
    /// Builds a regulator around a heater and a sensor.
    ///
    /// With a target of `230` and a variance of `5` the heater is switched on
    /// below 22.5 degrees and off above 23.5 degrees.
    pub fn new(
        heater_api: HeaterAPI,
        temp_sensor_api: DHT11API,
        default_target_temp: i16,
        default_temp_variance: u16,
    ) -> (api: GrowboxAPI)
        ensures
            api@ == (Regulator {
                setpoint: default_target_temp as int,
                band: default_temp_variance as nat,
                heater: heater_api@,
                sensor: temp_sensor_api@,
            }),
        no_unwind
    {
        GrowboxAPI {
            heater_api,
            temp_sensor_api,
            target_temp: default_target_temp,
            temp_variance: default_temp_variance,
        }
    }

    /// Runs one control cycle on the result of this cycle's one measurement
    /// attempt.
    ///
    /// The fault indicator is lit exactly when the attempt failed. A failed
    /// attempt switches the heater off; a temperature below the band switches
    /// it on, one above the band switches it off, and one inside the band
    /// issues no command. The outcome names the writes to perform on the two
    /// outputs. No failure reaches the caller.
    pub fn update_heater(&mut self, attempt: Result<i16, SensorError>) -> (outcome: CycleOutcome)
        ensures
            final(self)@ == old(self)@.after_cycle(attempt),
            outcome == old(self)@.outcome(attempt),
        no_unwind
    {
        let position = self.is_heat_on(attempt);
        let heater = match position {
            Some(true) => {
                self.heat_on();
                Some(self.heater_api.level())
            },
            Some(false) => {
                self.heat_off();
                Some(self.heater_api.level())
            },
            None => None,
        };
        CycleOutcome {
            decision: HeatingDecision::from_switch(position),
            indicator: self.temp_sensor_api.error_pin(),
            heater,
        }
    }

    /// Reads the sensor and tells what the heater should do: `Some(true)` to
    /// switch it on, `Some(false)` to switch it off, `None` to leave it as it
    /// is. Only the fault indicator changes.
    pub fn is_heat_on(&mut self, attempt: Result<i16, SensorError>) -> (position: Option<bool>)
        ensures
            final(self)@ == old(self)@.after_read(attempt),
            position == old(self)@.decision(sample_of(attempt)).switch(),
        no_unwind
    {
        let temp = self.get_temp(attempt);
        self.decide(temp).as_switch()
    }

    /// The decision for a sample under the current setpoint and band. Nothing
    /// changes.
    pub fn decide(&self, sample: Option<i16>) -> (decision: HeatingDecision)
        ensures
            decision == self@.decision(sample_value(sample)),
        no_unwind
    {
        match sample {
            Some(result) => {
                let measured: i32 = result as i32;
                if measured < self.get_min_temp() {
                    HeatingDecision::TurnOn
                } else if measured > self.get_max_temp() {
                    HeatingDecision::TurnOff
                } else {
                    HeatingDecision::HoldCurrent
                }
            },
            None => HeatingDecision::TurnOff,
        }
    }

    /// Upper edge of the dead band: above it the heater is switched off.
    pub fn get_max_temp(&self) -> (edge: i32)
        ensures
            edge == effective_high(self@.setpoint, self@.band),
        no_unwind
    {
        self.target_temp as i32 + self.temp_variance as i32
    }

    /// Lower edge of the dead band: below it the heater is switched on.
    pub fn get_min_temp(&self) -> (edge: i32)
        ensures
            edge == effective_low(self@.setpoint, self@.band),
        no_unwind
    {
        self.target_temp as i32 - self.temp_variance as i32
    }

    /// Switches the heater on.
    pub fn heat_on(&mut self)
        ensures
            final(self)@ == (Regulator { heater: old(self)@.heater.turned_on(), ..old(self)@ }),
        no_unwind
    {
        self.heater_api.heat_on()
    }

    /// Switches the heater off.
    pub fn heat_off(&mut self)
        ensures
            final(self)@ == (Regulator { heater: old(self)@.heater.turned_off(), ..old(self)@ }),
        no_unwind
    {
        self.heater_api.heat_off()
    }

    /// Takes in the result of one measurement attempt: the temperature if
    /// there is one, with the fault indicator put out, and nothing otherwise,
    /// with the fault indicator lit.
    pub fn get_temp(&mut self, attempt: Result<i16, SensorError>) -> (sample: Option<i16>)
        ensures
            final(self)@ == old(self)@.after_read(attempt),
            sample == attempt.ok(),
        no_unwind
    {
        self.temp_sensor_api.read(attempt)
    }

    /// Lights the fault indicator.
    pub fn error_led_on(&mut self)
        ensures
            final(self)@ == (Regulator { sensor: old(self)@.sensor.led_on(), ..old(self)@ }),
        no_unwind
    {
        self.temp_sensor_api.error_led_on()
    }

    /// Puts the fault indicator out.
    pub fn error_led_off(&mut self)
        ensures
            final(self)@ == (Regulator { sensor: old(self)@.sensor.led_off(), ..old(self)@ }),
        no_unwind
    {
        self.temp_sensor_api.error_led_off()
    }

    /// The target temperature.
    pub fn get_setpoint(&self) -> (setpoint: i16)
        ensures
            setpoint == self@.setpoint,
        no_unwind
    {
        self.target_temp
    }

    /// The half-width of the dead band.
    pub fn get_band(&self) -> (band: u16)
        ensures
            band == self@.band,
        no_unwind
    {
        self.temp_variance
    }

    /// Replaces the target temperature. The next cycle decides by the new
    /// value; the outputs are not touched.
    pub fn set_setpoint(&mut self, value: i16)
        ensures
            final(self)@ == (Regulator { setpoint: value as int, ..old(self)@ }),
        no_unwind
    {
        self.target_temp = value;
    }

    /// Replaces the half-width of the dead band. The next cycle decides by
    /// the new value; the outputs are not touched.
    pub fn set_band(&mut self, value: u16)
        ensures
            final(self)@ == (Regulator { band: value as nat, ..old(self)@ }),
        no_unwind
    {
        self.temp_variance = value;
    }

    /// The heater.
    pub fn heater_api(&self) -> (heater: &HeaterAPI)
        ensures
            heater@ == self@.heater,
        no_unwind
    {
        &self.heater_api
    }

    /// The sensor and its fault indicator.
    pub fn temp_sensor_api(&self) -> (sensor: &DHT11API)
        ensures
            sensor@ == self@.sensor,
        no_unwind
    {
        &self.temp_sensor_api
    }
}

/// A run of control cycles changes neither the setpoint, nor the band, nor
/// the polarity of the heater: between cycles the regulator carries nothing
/// else along but the levels of its two outputs.
pub proof fn lemma_cycles_keep_configuration(
    regulator: Regulator,
    attempts: Seq<Result<i16, SensorError>>,
)
    ensures
        regulator.after_cycles(attempts).setpoint == regulator.setpoint,
        regulator.after_cycles(attempts).band == regulator.band,
        regulator.after_cycles(attempts).heater.on_level == regulator.heater.on_level,
    decreases attempts.len(),
{
    if attempts.len() > 0 {
        lemma_cycles_keep_configuration(regulator, attempts.drop_last());
    }
}

/// The fault indicator shows the most recent attempt alone: after a run of
/// control cycles it is lit exactly when the last attempt failed.
pub proof fn lemma_indicator_shows_last_attempt(
    regulator: Regulator,
    attempts: Seq<Result<i16, SensorError>>,
)
    requires
        attempts.len() >= 1,
    ensures
        regulator.after_cycles(attempts).sensor.fault_shown() <==> attempts.last() is Err,
{
}

/// A failed measurement attempt fails safe, whatever the heater did before:
/// the decision is to switch off, the heater output is written to its
/// de-energizing level, and the fault indicator is lit.
pub proof fn lemma_failed_attempt_fails_safe(regulator: Regulator, error: SensorError)
    ensures
        regulator.outcome(Err(error)).decision == HeatingDecision::TurnOff,
        regulator.outcome(Err(error)).heater == Some(regulator.heater.off_level()),
        regulator.outcome(Err(error)).indicator == PinLevel::High,
        !regulator.after_cycle(Err(error)).heater.energized(),
        regulator.after_cycle(Err(error)).sensor.fault_shown(),
{
}

/// Holding is stable: over a run of cycles whose temperatures all lie inside
/// the dead band, no command at all is issued to the heater, and its output
/// keeps the level it had before the run.
pub proof fn lemma_in_band_run_issues_no_command(
    regulator: Regulator,
    attempts: Seq<Result<i16, SensorError>>,
)
    requires
        forall|i: int| 0 <= i < attempts.len() ==> regulator.in_band(#[trigger] attempts[i]),
    ensures
        regulator.heater_writes(attempts).len() == 0,
        regulator.after_cycles(attempts).heater == regulator.heater,
        forall|i: int|
            0 <= i < attempts.len() ==> regulator.after_cycles(attempts.take(i)).outcome(
                #[trigger] attempts[i],
            ).decision == HeatingDecision::HoldCurrent,
    decreases attempts.len(),
{
    if attempts.len() > 0 {
        let earlier = attempts.drop_last();
        lemma_in_band_run_issues_no_command(regulator, earlier);
        lemma_cycles_keep_configuration(regulator, earlier);
        assert(regulator.in_band(attempts.last()));
        assert forall|i: int| 0 <= i < attempts.len() implies regulator.after_cycles(
            attempts.take(i),
        ).outcome(#[trigger] attempts[i]).decision == HeatingDecision::HoldCurrent by {
            if i < earlier.len() {
                assert(attempts.take(i) == earlier.take(i));
                assert(attempts[i] == earlier[i]);
            } else {
                assert(attempts.take(i) == earlier);
            }
        }
    }
}

/// Recovery: after one or more failed attempts in a row the fault indicator
/// is lit and the heater is off; a temperature below the band that follows
/// puts the indicator out and switches the heater on.
pub proof fn lemma_recovers_after_failures(
    regulator: Regulator,
    failures: Seq<Result<i16, SensorError>>,
    temperature: i16,
)
    requires
        failures.len() >= 1,
        forall|i: int| 0 <= i < failures.len() ==> (#[trigger] failures[i]) is Err,
        temperature < effective_low(regulator.setpoint, regulator.band),
    ensures
        regulator.after_cycles(failures).sensor.fault_shown(),
        !regulator.after_cycles(failures).heater.energized(),
        regulator.after_cycles(failures).outcome(Ok(temperature)) == (CycleOutcome {
            decision: HeatingDecision::TurnOn,
            indicator: PinLevel::Low,
            heater: Some(regulator.heater.on_level),
        }),
        !regulator.after_cycles(failures).after_cycle(Ok(temperature)).sensor.fault_shown(),
        regulator.after_cycles(failures).after_cycle(Ok(temperature)).heater.energized(),
{
    lemma_cycles_keep_configuration(regulator, failures.drop_last());
}

} // verus!
