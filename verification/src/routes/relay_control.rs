//! The decision and wording of a manual relay toggle.
//!
//! A control endpoint flips a device to the opposite of its current
//! status; on relay success the boundary applies the matching transition
//! with `apply_fridge_transition` and its siblings, and reports with the
//! message worded here.

use vstd::prelude::*;
use vstd::string::StringExecFns;
use crate::relay_ctrl::RelayStatus;

verus! {

/// The state a manual toggle drives a device to: the opposite of the
/// status it currently reports.
pub fn manual_toggle_target(prev_status: RelayStatus) -> (r: RelayStatus)
    ensures
        r == (if prev_status == RelayStatus::On {
            RelayStatus::Off
        } else {
            RelayStatus::On
        }),
{
    prev_status.toggled()
}

/// The report of a successful toggle: the device's name, then the state it
/// was turned to.
pub fn relay_change_message(device: &str, new_status: RelayStatus) -> (r: String)
    ensures
        r@ == device@ + " turned "@ + (if new_status == RelayStatus::On {
            "On"@
        } else {
            "Off"@
        }),
{
    let mut message = String::from_str(device);
    message.append(" turned ");
    message.append(new_status.label());
    message
}

} // verus!
