//! Initial contents of the shared store.

use vstd::prelude::*;
use crate::relay_ctrl::RelayStatus;
use crate::shared_data::SharedData;

verus! {

/// The store as the process starts: no polls yet, placeholder readings of
/// 13.00 degrees and 80.00 percent on both sensors, an average humidity
/// matching the placeholder, every device off, and every instant at the
/// Unix epoch.
pub fn initialize_shared_data() -> (r: SharedData)
    ensures
        r == (SharedData {
            polling_iterations: 0u64,
            temp_1: 1300i64,
            humidity_1: 8000i64,
            temp_2: 1300i64,
            humidity_2: 8000i64,
            average_temp: 0i64,
            average_humidity: 8000i64,
            atmospheric_quality_index: 0i64,
            fridge_status: RelayStatus::Off,
            humidifier_status: RelayStatus::Off,
            ventilator_status: RelayStatus::Off,
            dehumidifier_status: RelayStatus::Off,
            heater_status: RelayStatus::Off,
            last_reading_time: 0u64,
            fridge_turn_on_datetime: 0u64,
            fridge_turn_off_datetime: 0u64,
            humidifier_turn_on_datetime: 0u64,
            humidifier_turn_off_datetime: 0u64,
            dehumidifier_turn_on_datetime: 0u64,
            dehumidifier_turn_off_datetime: 0u64,
            ventilator_turn_on_datetime: 0u64,
            ventilator_turn_off_datetime: 0u64,
            heater_turn_on_datetime: 0u64,
            heater_turn_off_datetime: 0u64,
        }),
        r.times_wf(),
{
    SharedData::new(
        0,
        1300,
        8000,
        1300,
        8000,
        0,
        8000,
        0,
        RelayStatus::Off,
        RelayStatus::Off,
        RelayStatus::Off,
        RelayStatus::Off,
        RelayStatus::Off,
        0,
        0,
        0,
        0,
        0,
        0,
        0,
        0,
        0,
        0,
        0,
    )
}

} // verus!
