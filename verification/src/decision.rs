//! The two-level hysteresis rule.
//!
//! Around the setpoint lies a dead band of half-width `band`. Below the band
//! the heater is switched on, above it the heater is switched off, and inside
//! it, both edges included, the heater is left as it is. Without a sample the
//! heater is switched off.

use vstd::prelude::*;

verus! {

/// What one control cycle asks of the heater.
#[derive(Clone, Copy, Debug, PartialEq, Eq, Structural)]
pub enum HeatingDecision {
    /// Energize the heating element.
    TurnOn,
    /// De-energize the heating element.
    TurnOff,
    /// Issue no command: the element keeps its last commanded state.
    HoldCurrent,
}

impl HeatingDecision {
    /// The decision as a switch position: `Some(true)` for on, `Some(false)`
    /// for off, `None` where the heater is to be left alone.
    pub open spec fn switch(self) -> Option<bool> {
        match self {
            HeatingDecision::TurnOn => Some(true),
            HeatingDecision::TurnOff => Some(false),
            HeatingDecision::HoldCurrent => None,
        }
    }

    /// The decision that a switch position stands for.
    pub open spec fn of_switch(position: Option<bool>) -> HeatingDecision {
        match position {
            Some(true) => HeatingDecision::TurnOn,
            Some(false) => HeatingDecision::TurnOff,
            None => HeatingDecision::HoldCurrent,
        }
    }

    /// Returns the decision that a switch position stands for.
    pub fn from_switch(position: Option<bool>) -> (decision: HeatingDecision)
        ensures
            decision == Self::of_switch(position),
            decision.switch() == position,
        no_unwind
    {
        match position {
            Some(true) => HeatingDecision::TurnOn,
            Some(false) => HeatingDecision::TurnOff,
            None => HeatingDecision::HoldCurrent,
        }
    }

    /// Returns the decision as a switch position.
    pub fn as_switch(self) -> (position: Option<bool>)
        ensures
            position == self.switch(),
            Self::of_switch(position) == self,
        no_unwind
    {
        match self {
            HeatingDecision::TurnOn => Some(true),
            HeatingDecision::TurnOff => Some(false),
            HeatingDecision::HoldCurrent => None,
        }
    }
}

/// Lower edge of the dead band: below it the heater is switched on.
pub open spec fn effective_low(setpoint: int, band: nat) -> int {
    setpoint - band
}

/// Upper edge of the dead band: above it the heater is switched off.
pub open spec fn effective_high(setpoint: int, band: nat) -> int {
    setpoint + band
}

/// The decision for one cycle's sample, which is absent when the sensor could
/// not be read.
///
/// Both comparisons are strict, so a temperature on an edge of the band lies
/// inside it.
pub open spec fn decision_for(setpoint: int, band: nat, sample: Option<int>) -> HeatingDecision {
    match sample {
        None => HeatingDecision::TurnOff,
        Some(temperature) => if temperature < effective_low(setpoint, band) {
            HeatingDecision::TurnOn
        } else if temperature > effective_high(setpoint, band) {
            HeatingDecision::TurnOff
        } else {
            HeatingDecision::HoldCurrent
        },
    }
}

/// The dead band is never empty: its lower edge is not above its upper edge.
pub proof fn lemma_band_ordered(setpoint: int, band: nat)
    ensures
        effective_low(setpoint, band) <= effective_high(setpoint, band),
{
}

/// A measured temperature below the band switches the heater on, one above
/// the band switches it off, and one inside the band leaves it alone.
pub proof fn lemma_decision_by_band(setpoint: int, band: nat, temperature: int)
    ensures
        temperature < setpoint - band <==> decision_for(setpoint, band, Some(temperature))
            == HeatingDecision::TurnOn,
        temperature > setpoint + band <==> decision_for(setpoint, band, Some(temperature))
            == HeatingDecision::TurnOff,
        setpoint - band <= temperature <= setpoint + band <==> decision_for(
            setpoint,
            band,
            Some(temperature),
        ) == HeatingDecision::HoldCurrent,
{
}

/// Both edges of the band belong to it: a temperature exactly on an edge
/// leaves the heater alone.
pub proof fn lemma_band_edges_hold(setpoint: int, band: nat)
    ensures
        decision_for(setpoint, band, Some(setpoint - band)) == HeatingDecision::HoldCurrent,
        decision_for(setpoint, band, Some(setpoint + band)) == HeatingDecision::HoldCurrent,
{
}

/// Without a sample the heater is switched off, whatever the setpoint and
/// the band.
pub proof fn lemma_absent_sample_turns_off(setpoint: int, band: nat)
    ensures
        decision_for(setpoint, band, None) == HeatingDecision::TurnOff,
{
}

} // verus!
