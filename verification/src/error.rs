//! Error taxonomy of the control engine.
//!
//! Configuration errors are fatal at startup, sensor and actuation errors are
//! recovered locally by the loops that meet them, and the remaining variants
//! classify failures of the collaborators around the core (HTTP, persistence,
//! task plumbing). Every variant carries its detail as plain text; the
//! boundary code that meets a foreign error converts it to text before it
//! reaches the library.

use vstd::prelude::*;
use vstd::string::StringExecFns;

verus! {

/// One error of the control system, tagged by where it arose.
#[derive(Debug)]
pub enum AtmosError {
    ConfigError(String),
    IoError(String),
    JsonError(String),
    GpioError(String),
    SensorReadError(String),
    RelayControlError(String),
    SqliteError(String),
    JsonParseError(String),
    HttpError(String),
    FridgeError(String),
    DehumidifierError(String),
    HumidifierError(String),
    VentilatorError(String),
    RelayError(String),
    SensorError(String),
    TaskJoinError(String),
}

impl AtmosError {
    /// The label under which the variant is reported.
    pub open spec fn spec_label(&self) -> Seq<char> {
        match self {
            AtmosError::ConfigError(_) => "Configuration error"@,
            AtmosError::IoError(_) => "I/O error"@,
            AtmosError::JsonError(_) => "JSON error"@,
            AtmosError::GpioError(_) => "GPIO error"@,
            AtmosError::SensorReadError(_) => "Sensor read error"@,
            AtmosError::RelayControlError(_) => "Relay control error"@,
            AtmosError::SqliteError(_) => "Sqlite error"@,
            AtmosError::JsonParseError(_) => "JSON parse error"@,
            AtmosError::HttpError(_) => "HTTP error"@,
            AtmosError::FridgeError(_) => "Fridge error"@,
            AtmosError::DehumidifierError(_) => "Dehumidifier error"@,
            AtmosError::HumidifierError(_) => "Humidifier error"@,
            AtmosError::VentilatorError(_) => "Ventilator error"@,
            AtmosError::RelayError(_) => "Relay error"@,
            AtmosError::SensorError(_) => "Sensor error"@,
            AtmosError::TaskJoinError(_) => "Task join error"@,
        }
    }

    /// The detail text the variant carries.
    pub open spec fn spec_detail(&self) -> Seq<char> {
        match self {
            AtmosError::ConfigError(m) => m@,
            AtmosError::IoError(m) => m@,
            AtmosError::JsonError(m) => m@,
            AtmosError::GpioError(m) => m@,
            AtmosError::SensorReadError(m) => m@,
            AtmosError::RelayControlError(m) => m@,
            AtmosError::SqliteError(m) => m@,
            AtmosError::JsonParseError(m) => m@,
            AtmosError::HttpError(m) => m@,
            AtmosError::FridgeError(m) => m@,
            AtmosError::DehumidifierError(m) => m@,
            AtmosError::HumidifierError(m) => m@,
            AtmosError::VentilatorError(m) => m@,
            AtmosError::RelayError(m) => m@,
            AtmosError::SensorError(m) => m@,
            AtmosError::TaskJoinError(m) => m@,
        }
    }

    /// The label under which the variant is reported.
    pub fn label(&self) -> (r: &'static str)
        ensures
            r@ == self.spec_label(),
    {
        match self {
            AtmosError::ConfigError(_) => "Configuration error",
            AtmosError::IoError(_) => "I/O error",
            AtmosError::JsonError(_) => "JSON error",
            AtmosError::GpioError(_) => "GPIO error",
            AtmosError::SensorReadError(_) => "Sensor read error",
            AtmosError::RelayControlError(_) => "Relay control error",
            AtmosError::SqliteError(_) => "Sqlite error",
            AtmosError::JsonParseError(_) => "JSON parse error",
            AtmosError::HttpError(_) => "HTTP error",
            AtmosError::FridgeError(_) => "Fridge error",
            AtmosError::DehumidifierError(_) => "Dehumidifier error",
            AtmosError::HumidifierError(_) => "Humidifier error",
            AtmosError::VentilatorError(_) => "Ventilator error",
            AtmosError::RelayError(_) => "Relay error",
            AtmosError::SensorError(_) => "Sensor error",
            AtmosError::TaskJoinError(_) => "Task join error",
        }
    }

    /// The detail text the variant carries.
    pub fn detail(&self) -> (r: &String)
        ensures
            r@ == self.spec_detail(),
    {
        match self {
            AtmosError::ConfigError(m) => m,
            AtmosError::IoError(m) => m,
            AtmosError::JsonError(m) => m,
            AtmosError::GpioError(m) => m,
            AtmosError::SensorReadError(m) => m,
            AtmosError::RelayControlError(m) => m,
            AtmosError::SqliteError(m) => m,
            AtmosError::JsonParseError(m) => m,
            AtmosError::HttpError(m) => m,
            AtmosError::FridgeError(m) => m,
            AtmosError::DehumidifierError(m) => m,
            AtmosError::HumidifierError(m) => m,
            AtmosError::VentilatorError(m) => m,
            AtmosError::RelayError(m) => m,
            AtmosError::SensorError(m) => m,
            AtmosError::TaskJoinError(m) => m,
        }
    }

    /// The full report line: the label, a separating colon, and the detail.
    pub fn describe(&self) -> (r: String)
        ensures
            r@ == self.spec_label() + ": "@ + self.spec_detail(),
    {
        let mut out = String::from_str(self.label());
        out.append(": ");
        out.append(self.detail().as_str());
        out
    }
}

} // verus!
