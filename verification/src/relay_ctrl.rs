//! The on/off state a relay channel can be commanded to.

use vstd::prelude::*;

verus! {

/// Commanded state of a relay channel. Each controlled appliance (fridge,
/// humidifier, dehumidifier, ventilator/heater) is driven through one relay
/// that is either energised (`On`) or released (`Off`).
#[derive(Clone, Copy, Debug, PartialEq, Eq, Structural)]
pub enum RelayStatus {
    On,
    Off,
}

impl RelayStatus {
    /// The human-readable name of the state, as it appears in status reports
    /// and persisted rows.
    pub fn label(&self) -> (r: &'static str)
        ensures
            *self == RelayStatus::On ==> r@ == "On"@,
            *self == RelayStatus::Off ==> r@ == "Off"@,
    {
        match self {
            RelayStatus::On => "On",
            RelayStatus::Off => "Off",
        }
    }

    /// The opposite state; manual relay toggling flips to this.
    pub fn toggled(&self) -> (r: RelayStatus)
        ensures
            r == (if *self == RelayStatus::On {
                RelayStatus::Off
            } else {
                RelayStatus::On
            }),
    {
        match self {
            RelayStatus::On => RelayStatus::Off,
            RelayStatus::Off => RelayStatus::On,
        }
    }
}

} // verus!
