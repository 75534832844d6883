//! Per-device status snapshots, as the status endpoints serve them.

use vstd::prelude::*;
use crate::relay_ctrl::RelayStatus;
use crate::shared_data::SharedData;

verus! {

/// The fridge's status with its last transition instants.
#[derive(Clone, Copy, Debug, PartialEq, Eq, Structural)]
pub struct FridgeStatus {
    pub fridge_status: RelayStatus,
    pub last_fridge_turn_on: u64,
    pub last_fridge_turn_off: u64,
}

impl FridgeStatus {
    pub fn of_store(sd: &SharedData) -> (r: FridgeStatus)
        ensures
            r == (FridgeStatus {
                fridge_status: sd.fridge_status,
                last_fridge_turn_on: sd.fridge_turn_on_datetime,
                last_fridge_turn_off: sd.fridge_turn_off_datetime,
            }),
    {
        FridgeStatus {
            fridge_status: sd.fridge_status(),
            last_fridge_turn_on: sd.fridge_turn_on_datetime(),
            last_fridge_turn_off: sd.fridge_turn_off_datetime(),
        }
    }
}

/// The humidifier's status with its last transition instants.
#[derive(Clone, Copy, Debug, PartialEq, Eq, Structural)]
pub struct HumidifierStatus {
    pub humidifier_status: RelayStatus,
    pub last_humidifier_turn_on: u64,
    pub last_humidifier_turn_off: u64,
}

impl HumidifierStatus {
    pub fn of_store(sd: &SharedData) -> (r: HumidifierStatus)
        ensures
            r == (HumidifierStatus {
                humidifier_status: sd.humidifier_status,
                last_humidifier_turn_on: sd.humidifier_turn_on_datetime,
                last_humidifier_turn_off: sd.humidifier_turn_off_datetime,
            }),
    {
        HumidifierStatus {
            humidifier_status: sd.humidifier_status(),
            last_humidifier_turn_on: sd.humidifier_turn_on_datetime(),
            last_humidifier_turn_off: sd.humidifier_turn_off_datetime(),
        }
    }
}

/// The dehumidifier's status with its last transition instants.
#[derive(Clone, Copy, Debug, PartialEq, Eq, Structural)]
pub struct DehumidifierStatus {
    pub dehumidifier_status: RelayStatus,
    pub last_dehumidifier_turn_on: u64,
    pub last_dehumidifier_turn_off: u64,
}

impl DehumidifierStatus {
    pub fn of_store(sd: &SharedData) -> (r: DehumidifierStatus)
        ensures
            r == (DehumidifierStatus {
                dehumidifier_status: sd.dehumidifier_status,
                last_dehumidifier_turn_on: sd.dehumidifier_turn_on_datetime,
                last_dehumidifier_turn_off: sd.dehumidifier_turn_off_datetime,
            }),
    {
        DehumidifierStatus {
            dehumidifier_status: sd.dehumidifier_status(),
            last_dehumidifier_turn_on: sd.dehumidifier_turn_on_datetime(),
            last_dehumidifier_turn_off: sd.dehumidifier_turn_off_datetime(),
        }
    }
}

/// The ventilator's status with its last transition instants.
#[derive(Clone, Copy, Debug, PartialEq, Eq, Structural)]
pub struct VentilatorStatus {
    pub ventilator_status: RelayStatus,
    pub last_ventilator_turn_on: u64,
    pub last_ventilator_turn_off: u64,
}

impl VentilatorStatus {
    pub fn of_store(sd: &SharedData) -> (r: VentilatorStatus)
        ensures
            r == (VentilatorStatus {
                ventilator_status: sd.ventilator_status,
                last_ventilator_turn_on: sd.ventilator_turn_on_datetime,
                last_ventilator_turn_off: sd.ventilator_turn_off_datetime,
            }),
    {
        VentilatorStatus {
            ventilator_status: sd.ventilator_status(),
            last_ventilator_turn_on: sd.ventilator_turn_on_datetime(),
            last_ventilator_turn_off: sd.ventilator_turn_off_datetime(),
        }
    }
}

/// Every device's status at once.
#[derive(Clone, Copy, Debug, PartialEq, Eq, Structural)]
pub struct AllStatuses {
    pub fridge_status: RelayStatus,
    pub humidifier_status: RelayStatus,
    pub dehumidifier_status: RelayStatus,
    pub heater_status: RelayStatus,
    pub ventilator_status: RelayStatus,
}

impl AllStatuses {
    pub fn of_store(sd: &SharedData) -> (r: AllStatuses)
        ensures
            r == (AllStatuses {
                fridge_status: sd.fridge_status,
                humidifier_status: sd.humidifier_status,
                dehumidifier_status: sd.dehumidifier_status,
                heater_status: sd.heater_status,
                ventilator_status: sd.ventilator_status,
            }),
    {
        AllStatuses {
            fridge_status: sd.fridge_status(),
            humidifier_status: sd.humidifier_status(),
            dehumidifier_status: sd.dehumidifier_status(),
            heater_status: sd.heater_status(),
            ventilator_status: sd.ventilator_status(),
        }
    }
}

} // verus!
