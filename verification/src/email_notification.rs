//! Text of alert notifications.
//!
//! The engine only words the message; handing it to a mail transport is a
//! collaborator's business.

use vstd::prelude::*;
use vstd::string::StringExecFns;

verus! {

/// The subject and body of an alert: the subject names the alert type
/// after a fixed prefix, the body repeats the type and carries the detail.
pub fn create_alert_message(alert_type: &str, details: &str) -> (r: (String, String))
    ensures
        r.0@ == "Atmos Alert: "@ + alert_type@,
        r.1@ == "An alert has been triggered in your Atmos system.\n\nAlert Type: "@ + alert_type@
            + "\n\nDetails: "@ + details@,
{
    let mut subject = String::from_str("Atmos Alert: ");
    subject.append(alert_type);
    let mut body = String::from_str("An alert has been triggered in your Atmos system.\n\nAlert Type: ");
    body.append(alert_type);
    body.append("\n\nDetails: ");
    body.append(details);
    (subject, body)
}

} // verus!
