//! Helpers for the rendered overview page.

use vstd::prelude::*;
use vstd::string::StringExecFns;

verus! {

/// The CSS class of a device row: "on" for an active device, "off"
/// otherwise.
pub fn color_status(status: bool) -> (r: String)
    ensures
        status ==> r@ == "on"@,
        !status ==> r@ == "off"@,
{
    if status {
        String::from_str("on")
    } else {
        String::from_str("off")
    }
}

} // verus!
