//! The heating actuator: a binary output with a fixed polarity.

use crate::decision::HeatingDecision;
use crate::pin::PinLevel;
use vstd::prelude::*;

verus! {

/// What a [`HeaterAPI`] stands for: the level its output holds and the level
/// at which the heating element is energized.
pub struct Heater {
    /// Level the output was last driven to.
    pub level: PinLevel,
    /// Level that energizes the heating element on this wiring.
    pub on_level: PinLevel,
}

impl Heater {
    /// Level that de-energizes the heating element.
    pub open spec fn off_level(self) -> PinLevel {
        self.on_level.inverse()
    }

    /// Whether the output holds the energizing level.
    pub open spec fn energized(self) -> bool {
        self.level == self.on_level
    }

    /// The heater after a command to switch on.
    pub open spec fn turned_on(self) -> Heater {
        Heater { level: self.on_level, on_level: self.on_level }
    }

    /// The heater after a command to switch off.
    pub open spec fn turned_off(self) -> Heater {
        Heater { level: self.off_level(), on_level: self.on_level }
    }

    /// The heater after a decision was carried out: holding issues no
    /// command and leaves the output as it is.
    pub open spec fn after(self, decision: HeatingDecision) -> Heater {
        match decision {
            HeatingDecision::TurnOn => self.turned_on(),
            HeatingDecision::TurnOff => self.turned_off(),
            HeatingDecision::HoldCurrent => self,
        }
    }

    /// The level a decision writes to the output, if it writes one.
    pub open spec fn write_for(self, decision: HeatingDecision) -> Option<PinLevel> {
        match decision {
            HeatingDecision::TurnOn => Some(self.on_level),
            HeatingDecision::TurnOff => Some(self.off_level()),
            HeatingDecision::HoldCurrent => None,
        }
    }
}

/// Control of the heating element.
///
/// The relay that switches the element may be wired so that a high output
/// switches it off. That polarity is given once, at construction; callers
/// speak only of on and off. A command sets the level the output is to
/// hold, without looking at the level it held, so repeating one is always
/// safe.
pub struct HeaterAPI {
    heath_pin: PinLevel,
    on_level: PinLevel,
}

impl View for HeaterAPI {
    type V = Heater;

    closed spec fn view(&self) -> Heater {
        Heater { level: self.heath_pin, on_level: self.on_level }
    }
}

impl HeaterAPI {
    /// Takes over an output that currently holds `heath_pin` and whose
    /// heating element is energized at `on_level`.
    pub fn new(heath_pin: PinLevel, on_level: PinLevel) -> (heater: HeaterAPI)
        ensures
            heater@ == (Heater { level: heath_pin, on_level }),
        no_unwind
    {
        HeaterAPI { heath_pin, on_level }
    }

    /// Drives the output to the level that de-energizes the heating element.
    pub fn heat_off(&mut self)
        ensures
            final(self)@ == old(self)@.turned_off(),
        no_unwind
    {
        self.heath_pin = self.on_level.inverted();
    }

    /// Drives the output to the level that energizes the heating element.
    pub fn heat_on(&mut self)
        ensures
            final(self)@ == old(self)@.turned_on(),
        no_unwind
    {
        self.heath_pin = self.on_level;
    }

    /// The level the output holds.
    pub fn level(&self) -> (level: PinLevel)
        ensures
            level == self@.level,
        no_unwind
    {
        self.heath_pin
    }

    /// The level at which the heating element is energized.
    pub fn on_level(&self) -> (level: PinLevel)
        ensures
            level == self@.on_level,
        no_unwind
    {
        self.on_level
    }

    /// Whether the heating element is energized.
    pub fn is_energized(&self) -> (on: bool)
        ensures
            on == self@.energized(),
        no_unwind
    {
        self.heath_pin == self.on_level
    }
}

/// Switching on is idempotent: a second command in a row leaves the output
/// at the level the first one set, and that level energizes the element.
pub proof fn lemma_heat_on_idempotent(heater: Heater)
    ensures
        heater.turned_on().turned_on() == heater.turned_on(),
        heater.turned_on().level == heater.turned_on().turned_on().level,
        heater.turned_on().energized(),
{
}

/// Switching off is idempotent: a second command in a row leaves the output
/// at the level the first one set, and that level de-energizes the element.
pub proof fn lemma_heat_off_idempotent(heater: Heater)
    ensures
        heater.turned_off().turned_off() == heater.turned_off(),
        heater.turned_off().level == heater.turned_off().turned_off().level,
        !heater.turned_off().energized(),
{
}

/// Neither command changes the polarity fixed at construction.
pub proof fn lemma_polarity_fixed(heater: Heater)
    ensures
        heater.turned_on().on_level == heater.on_level,
        heater.turned_off().on_level == heater.on_level,
{
}

} // verus!
