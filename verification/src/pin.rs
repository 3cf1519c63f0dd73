//! Logic levels of push-pull outputs.

use vstd::prelude::*;

verus! {

/// The level an output pin is driven to.
#[derive(Clone, Copy, Debug, PartialEq, Eq, Structural)]
pub enum PinLevel {
    Low,
    High,
}

impl PinLevel {
    /// The other level.
    pub open spec fn inverse(self) -> PinLevel {
        match self {
            PinLevel::Low => PinLevel::High,
            PinLevel::High => PinLevel::Low,
        }
    }

    /// Returns the other level.
    pub fn inverted(self) -> (level: PinLevel)
        ensures
            level == self.inverse(),
        no_unwind
    {
        match self {
            PinLevel::Low => PinLevel::High,
            PinLevel::High => PinLevel::Low,
        }
    }
}

} // verus!
