//! Verified core of a climate-control engine for an enclosed space.
//!
//! The library models the shared measurement/state store, the per-device
//! hysteresis-and-cooldown state machines (fridge, humidifier, dehumidifier,
//! ventilator) and the periodic control tick that ties sensor averages to
//! relay transitions. Temperatures and relative humidities are carried as
//! scaled integers (hundredths of a degree Celsius, hundredths of a percent)
//! and instants as whole seconds since the Unix epoch, so every rule can be
//! stated and proved exactly. Hardware actuation, HTTP serving, persistence
//! and sensor acquisition live outside the library and talk to it through
//! plain values.

pub mod config;
pub mod email_notification;
pub mod error;
pub mod initialization;
pub mod mock_relay_ctrl;
pub mod monitor_atmosphere;
pub mod read_atmosphere;
pub mod relay_ctrl;
pub mod routes;
pub mod shared_data;
