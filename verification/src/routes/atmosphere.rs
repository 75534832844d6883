//! Atmosphere snapshots and the history query's row limit.

use vstd::prelude::*;
use vstd::string::StrSliceExecFns;
use crate::relay_ctrl::RelayStatus;
use crate::shared_data::SharedData;

verus! {

/// The two derived averages, as the summary endpoint serves them.
#[derive(Clone, Copy, Debug, PartialEq, Eq, Structural)]
pub struct AvgAtmosphereData {
    pub temperature: i64,
    pub humidity: i64,
}

impl AvgAtmosphereData {
    /// The averages the store currently holds.
    pub fn of_store(sd: &SharedData) -> (r: AvgAtmosphereData)
        ensures
            r.temperature == sd.average_temp,
            r.humidity == sd.average_humidity,
    {
        AvgAtmosphereData { temperature: sd.average_temp(), humidity: sd.average_humidity() }
    }
}

/// Every field of the store, as the full-data endpoint serves it.
#[derive(Clone, Copy, Debug, PartialEq, Eq, Structural)]
pub struct FullData {
    pub temp_1: i64,
    pub humidity_1: i64,
    pub temp_2: i64,
    pub humidity_2: i64,
    pub average_temp: i64,
    pub average_humidity: i64,
    pub atmospheric_quality_index: i64,
    pub fridge_status: RelayStatus,
    pub humidifier_status: RelayStatus,
    pub dehumidifier_status: RelayStatus,
    pub heater_status: RelayStatus,
    pub last_reading_time: u64,
    pub fridge_turn_on_datetime: u64,
    pub fridge_turn_off_datetime: u64,
    pub humidifier_turn_on_datetime: u64,
    pub humidifier_turn_off_datetime: u64,
    pub dehumidifier_turn_on_datetime: u64,
    pub dehumidifier_turn_off_datetime: u64,
    pub heater_turn_on_datetime: u64,
    pub heater_turn_off_datetime: u64,
}

impl FullData {
    /// A faithful copy of the store's readable fields.
    pub fn of_store(sd: &SharedData) -> (r: FullData)
        ensures
            r == (FullData {
                temp_1: sd.temp_1,
                humidity_1: sd.humidity_1,
                temp_2: sd.temp_2,
                humidity_2: sd.humidity_2,
                average_temp: sd.average_temp,
                average_humidity: sd.average_humidity,
                atmospheric_quality_index: sd.atmospheric_quality_index,
                fridge_status: sd.fridge_status,
                humidifier_status: sd.humidifier_status,
                dehumidifier_status: sd.dehumidifier_status,
                heater_status: sd.heater_status,
                last_reading_time: sd.last_reading_time,
                fridge_turn_on_datetime: sd.fridge_turn_on_datetime,
                fridge_turn_off_datetime: sd.fridge_turn_off_datetime,
                humidifier_turn_on_datetime: sd.humidifier_turn_on_datetime,
                humidifier_turn_off_datetime: sd.humidifier_turn_off_datetime,
                dehumidifier_turn_on_datetime: sd.dehumidifier_turn_on_datetime,
                dehumidifier_turn_off_datetime: sd.dehumidifier_turn_off_datetime,
                heater_turn_on_datetime: sd.heater_turn_on_datetime,
                heater_turn_off_datetime: sd.heater_turn_off_datetime,
            }),
    {
        FullData {
            temp_1: sd.temp_one(),
            humidity_1: sd.humidity_one(),
            temp_2: sd.temp_two(),
            humidity_2: sd.humidity_two(),
            average_temp: sd.average_temp(),
            average_humidity: sd.average_humidity(),
            atmospheric_quality_index: sd.atmosphere_quality_index(),
            fridge_status: sd.fridge_status(),
            humidifier_status: sd.humidifier_status(),
            dehumidifier_status: sd.dehumidifier_status(),
            heater_status: sd.heater_status(),
            last_reading_time: sd.last_reading_datetime(),
            fridge_turn_on_datetime: sd.fridge_turn_on_datetime(),
            fridge_turn_off_datetime: sd.fridge_turn_off_datetime(),
            humidifier_turn_on_datetime: sd.humidifier_turn_on_datetime(),
            humidifier_turn_off_datetime: sd.humidifier_turn_off_datetime(),
            dehumidifier_turn_on_datetime: sd.dehumidifier_turn_on_datetime(),
            dehumidifier_turn_off_datetime: sd.dehumidifier_turn_off_datetime(),
            heater_turn_on_datetime: sd.heater_turn_on_datetime(),
            heater_turn_off_datetime: sd.heater_turn_off_datetime(),
        }
    }
}

/// Character-by-character string equality.
fn str_eq(a: &str, b: &str) -> (r: bool)
    ensures
        r == (a@ == b@),
{
    let a_len = a.unicode_len();
    let b_len = b.unicode_len();
    if a_len != b_len {
        return false;
    }
    let mut i: usize = 0;
    while i < a_len
        invariant
            a_len == a@.len(),
            b_len == b@.len(),
            a_len == b_len,
            i <= a_len,
            forall|j: int| 0 <= j < i ==> a@[j] == b@[j],
        decreases a_len - i,
    {
        if a.get_char(i) != b.get_char(i) {
            return false;
        }
        i = i + 1;
    }
    proof {
        assert(a@ =~= b@);
    }
    true
}

/// How many stored rows each named history range reads: 24 for a day, 168
/// for a week, 720 for a month.
pub open spec fn history_limit_spec(range: Seq<char>) -> usize {
    if range == "Today"@ {
        24
    } else if range == "Week"@ {
        168
    } else if range == "Month"@ {
        720
    } else {
        24
    }
}

/// The row limit for a named history range; an unknown name reads a day.
pub fn history_limit(range: &str) -> (r: usize)
    ensures
        r == history_limit_spec(range@),
{
    if str_eq(range, "Today") {
        24
    } else if str_eq(range, "Week") {
        168
    } else if str_eq(range, "Month") {
        720
    } else {
        24
    }
}

} // verus!
