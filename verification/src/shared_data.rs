//! The shared measurement and device-state store.
//!
//! One instance lives for the whole process and carries the raw sensor
//! readings, the derived averages and quality index, and per-device status
//! and transition instants. Readings are scaled integers (hundredths of a
//! degree Celsius, hundredths of a percent) and instants are whole seconds
//! since the Unix epoch. The boundary that shares the store across tasks
//! wraps it in a lock and forwards to these accessors one field at a time.

use vstd::prelude::*;
use crate::config::MAX_CONTROL_TIMESTAMP;
use crate::config::MAX_DURATION_SECONDS;
use crate::relay_ctrl::RelayStatus;

verus! {

/// An instant the engine is willing to store: at most the control horizon
/// plus one maximal configured duration, so that adding one more duration
/// to it can never overflow.
pub open spec fn time_in_range(t: u64) -> bool {
    t <= MAX_CONTROL_TIMESTAMP + MAX_DURATION_SECONDS
}

/// The values shared across every task of the application.
pub struct SharedData {
    /// Number of times the sensors have been polled.
    pub polling_iterations: u64,
    /// Temperature reading from the first sensor (hundredths of a degree).
    pub temp_1: i64,
    /// Humidity reading from the first sensor (hundredths of a percent).
    pub humidity_1: i64,
    /// Temperature reading from the second sensor (hundredths of a degree).
    pub temp_2: i64,
    /// Humidity reading from the second sensor (hundredths of a percent).
    pub humidity_2: i64,
    /// Average temperature from both sensors (hundredths of a degree).
    pub average_temp: i64,
    /// Average humidity from both sensors (hundredths of a percent).
    pub average_humidity: i64,
    /// Calculated atmospheric quality index: 100 or 0.
    pub atmospheric_quality_index: i64,
    /// Current status of the fridge.
    pub fridge_status: RelayStatus,
    /// Current status of the humidifier.
    pub humidifier_status: RelayStatus,
    /// Current status of the ventilator.
    pub ventilator_status: RelayStatus,
    /// Current status of the dehumidifier.
    pub dehumidifier_status: RelayStatus,
    /// Current status of the heater.
    pub heater_status: RelayStatus,
    /// Instant of the last sensor reading.
    pub last_reading_time: u64,
    /// Instant the fridge was last turned on.
    pub fridge_turn_on_datetime: u64,
    /// Instant the fridge was last turned off.
    pub fridge_turn_off_datetime: u64,
    /// Instant the humidifier was last turned on.
    pub humidifier_turn_on_datetime: u64,
    /// Instant the humidifier was last turned off.
    pub humidifier_turn_off_datetime: u64,
    /// Instant the dehumidifier was last turned on.
    pub dehumidifier_turn_on_datetime: u64,
    /// Instant the dehumidifier was last turned off.
    pub dehumidifier_turn_off_datetime: u64,
    /// Instant the ventilator was last turned on.
    pub ventilator_turn_on_datetime: u64,
    /// Instant the ventilator was last turned off.
    pub ventilator_turn_off_datetime: u64,
    /// Instant the heater was last turned on.
    pub heater_turn_on_datetime: u64,
    /// Instant the heater was last turned off.
    pub heater_turn_off_datetime: u64,
}

impl SharedData {
    /// Every stored instant lies in the working range, so the controllers'
    /// elapsed-time arithmetic cannot overflow.
    pub open spec fn times_wf(&self) -> bool {
        &&& time_in_range(self.last_reading_time)
        &&& time_in_range(self.fridge_turn_on_datetime)
        &&& time_in_range(self.fridge_turn_off_datetime)
        &&& time_in_range(self.humidifier_turn_on_datetime)
        &&& time_in_range(self.humidifier_turn_off_datetime)
        &&& time_in_range(self.dehumidifier_turn_on_datetime)
        &&& time_in_range(self.dehumidifier_turn_off_datetime)
        &&& time_in_range(self.ventilator_turn_on_datetime)
        &&& time_in_range(self.ventilator_turn_off_datetime)
        &&& time_in_range(self.heater_turn_on_datetime)
        &&& time_in_range(self.heater_turn_off_datetime)
    }

    #[allow(clippy::too_many_arguments)]
    pub fn new(
        polling_iterations: u64,
        temp_1: i64,
        humidity_1: i64,
        temp_2: i64,
        humidity_2: i64,
        average_temp: i64,
        average_humidity: i64,
        atmospheric_quality_index: i64,
        fridge_status: RelayStatus,
        humidifier_status: RelayStatus,
        ventilator_status: RelayStatus,
        dehumidifier_status: RelayStatus,
        heater_status: RelayStatus,
        last_reading_time: u64,
        fridge_turn_on_datetime: u64,
        fridge_turn_off_datetime: u64,
        humidifier_turn_on_datetime: u64,
        humidifier_turn_off_datetime: u64,
        dehumidifier_turn_on_datetime: u64,
        dehumidifier_turn_off_datetime: u64,
        ventilator_turn_on_datetime: u64,
        ventilator_turn_off_datetime: u64,
        heater_turn_on_datetime: u64,
        heater_turn_off_datetime: u64,
    ) -> (r: SharedData)
        ensures
            r == (SharedData {
                polling_iterations,
                temp_1,
                humidity_1,
                temp_2,
                humidity_2,
                average_temp,
                average_humidity,
                atmospheric_quality_index,
                fridge_status,
                humidifier_status,
                ventilator_status,
                dehumidifier_status,
                heater_status,
                last_reading_time,
                fridge_turn_on_datetime,
                fridge_turn_off_datetime,
                humidifier_turn_on_datetime,
                humidifier_turn_off_datetime,
                dehumidifier_turn_on_datetime,
                dehumidifier_turn_off_datetime,
                ventilator_turn_on_datetime,
                ventilator_turn_off_datetime,
                heater_turn_on_datetime,
                heater_turn_off_datetime,
            }),
    {
        SharedData {
            polling_iterations,
            temp_1,
            humidity_1,
            temp_2,
            humidity_2,
            average_temp,
            average_humidity,
            atmospheric_quality_index,
            fridge_status,
            humidifier_status,
            ventilator_status,
            dehumidifier_status,
            heater_status,
            last_reading_time,
            fridge_turn_on_datetime,
            fridge_turn_off_datetime,
            humidifier_turn_on_datetime,
            humidifier_turn_off_datetime,
            dehumidifier_turn_on_datetime,
            dehumidifier_turn_off_datetime,
            ventilator_turn_on_datetime,
            ventilator_turn_off_datetime,
            heater_turn_on_datetime,
            heater_turn_off_datetime,
        }
    }

    pub fn polling_iterations(&self) -> (r: u64)
        ensures
            r == self.polling_iterations,
    {
        self.polling_iterations
    }

    pub fn increment_polling_iterations(&mut self)
        requires
            old(self).polling_iterations < u64::MAX,
        ensures
            *final(self) == (SharedData { polling_iterations: (old(self).polling_iterations + 1) as u64, ..*old(self) }),
    {
        self.polling_iterations = self.polling_iterations + 1;
    }

    pub fn temp_one(&self) -> (r: i64)
        ensures
            r == self.temp_1,
    {
        self.temp_1
    }

    pub fn set_temp_one(&mut self, new_val: i64)
        ensures
            *final(self) == (SharedData { temp_1: new_val, ..*old(self) }),
    {
        self.temp_1 = new_val;
    }

    pub fn humidity_one(&self) -> (r: i64)
        ensures
            r == self.humidity_1,
    {
        self.humidity_1
    }

    pub fn set_humidity_one(&mut self, new_val: i64)
        ensures
            *final(self) == (SharedData { humidity_1: new_val, ..*old(self) }),
    {
        self.humidity_1 = new_val;
    }

    pub fn temp_two(&self) -> (r: i64)
        ensures
            r == self.temp_2,
    {
        self.temp_2
    }

    pub fn set_temp_two(&mut self, new_val: i64)
        ensures
            *final(self) == (SharedData { temp_2: new_val, ..*old(self) }),
    {
        self.temp_2 = new_val;
    }

    pub fn humidity_two(&self) -> (r: i64)
        ensures
            r == self.humidity_2,
    {
        self.humidity_2
    }

    pub fn set_humidity_two(&mut self, new_val: i64)
        ensures
            *final(self) == (SharedData { humidity_2: new_val, ..*old(self) }),
    {
        self.humidity_2 = new_val;
    }

    pub fn average_temp(&self) -> (r: i64)
        ensures
            r == self.average_temp,
    {
        self.average_temp
    }

    pub fn set_average_temp(&mut self, new_val: i64)
        ensures
            *final(self) == (SharedData { average_temp: new_val, ..*old(self) }),
    {
        self.average_temp = new_val;
    }

    pub fn average_humidity(&self) -> (r: i64)
        ensures
            r == self.average_humidity,
    {
        self.average_humidity
    }

    pub fn set_average_humidity(&mut self, new_val: i64)
        ensures
            *final(self) == (SharedData { average_humidity: new_val, ..*old(self) }),
    {
        self.average_humidity = new_val;
    }

    pub fn atmosphere_quality_index(&self) -> (r: i64)
        ensures
            r == self.atmospheric_quality_index,
    {
        self.atmospheric_quality_index
    }

    pub fn set_atmosphere_quality_index(&mut self, new_val: i64)
        ensures
            *final(self) == (SharedData { atmospheric_quality_index: new_val, ..*old(self) }),
    {
        self.atmospheric_quality_index = new_val;
    }

    pub fn fridge_status(&self) -> (r: RelayStatus)
        ensures
            r == self.fridge_status,
    {
        self.fridge_status
    }

    pub fn set_fridge_status(&mut self, new_val: RelayStatus)
        ensures
            *final(self) == (SharedData { fridge_status: new_val, ..*old(self) }),
    {
        self.fridge_status = new_val;
    }

    pub fn humidifier_status(&self) -> (r: RelayStatus)
        ensures
            r == self.humidifier_status,
    {
        self.humidifier_status
    }

    pub fn set_humidifier_status(&mut self, new_val: RelayStatus)
        ensures
            *final(self) == (SharedData { humidifier_status: new_val, ..*old(self) }),
    {
        self.humidifier_status = new_val;
    }

    pub fn dehumidifier_status(&self) -> (r: RelayStatus)
        ensures
            r == self.dehumidifier_status,
    {
        self.dehumidifier_status
    }

    pub fn set_dehumidifier_status(&mut self, new_val: RelayStatus)
        ensures
            *final(self) == (SharedData { dehumidifier_status: new_val, ..*old(self) }),
    {
        self.dehumidifier_status = new_val;
    }

    pub fn ventilator_status(&self) -> (r: RelayStatus)
        ensures
            r == self.ventilator_status,
    {
        self.ventilator_status
    }

    pub fn set_ventilator_status(&mut self, new_val: RelayStatus)
        ensures
            *final(self) == (SharedData { ventilator_status: new_val, ..*old(self) }),
    {
        self.ventilator_status = new_val;
    }

    pub fn heater_status(&self) -> (r: RelayStatus)
        ensures
            r == self.heater_status,
    {
        self.heater_status
    }

    pub fn set_heater_status(&mut self, new_val: RelayStatus)
        ensures
            *final(self) == (SharedData { heater_status: new_val, ..*old(self) }),
    {
        self.heater_status = new_val;
    }

    pub fn last_reading_datetime(&self) -> (r: u64)
        ensures
            r == self.last_reading_time,
    {
        self.last_reading_time
    }

    pub fn set_last_reading_datetime(&mut self, dt: u64)
        ensures
            *final(self) == (SharedData { last_reading_time: dt, ..*old(self) }),
    {
        self.last_reading_time = dt;
    }

    pub fn fridge_turn_on_datetime(&self) -> (r: u64)
        ensures
            r == self.fridge_turn_on_datetime,
    {
        self.fridge_turn_on_datetime
    }

    pub fn set_fridge_turn_on_datetime(&mut self, dt: u64)
        ensures
            *final(self) == (SharedData { fridge_turn_on_datetime: dt, ..*old(self) }),
    {
        self.fridge_turn_on_datetime = dt;
    }

    pub fn fridge_turn_off_datetime(&self) -> (r: u64)
        ensures
            r == self.fridge_turn_off_datetime,
    {
        self.fridge_turn_off_datetime
    }

    pub fn set_fridge_turn_off_datetime(&mut self, dt: u64)
        ensures
            *final(self) == (SharedData { fridge_turn_off_datetime: dt, ..*old(self) }),
    {
        self.fridge_turn_off_datetime = dt;
    }

    pub fn humidifier_turn_on_datetime(&self) -> (r: u64)
        ensures
            r == self.humidifier_turn_on_datetime,
    {
        self.humidifier_turn_on_datetime
    }

    pub fn set_humidifier_turn_on_datetime(&mut self, dt: u64)
        ensures
            *final(self) == (SharedData { humidifier_turn_on_datetime: dt, ..*old(self) }),
    {
        self.humidifier_turn_on_datetime = dt;
    }

    pub fn humidifier_turn_off_datetime(&self) -> (r: u64)
        ensures
            r == self.humidifier_turn_off_datetime,
    {
        self.humidifier_turn_off_datetime
    }

    pub fn set_humidifier_turn_off_datetime(&mut self, dt: u64)
        ensures
            *final(self) == (SharedData { humidifier_turn_off_datetime: dt, ..*old(self) }),
    {
        self.humidifier_turn_off_datetime = dt;
    }

    pub fn dehumidifier_turn_on_datetime(&self) -> (r: u64)
        ensures
            r == self.dehumidifier_turn_on_datetime,
    {
        self.dehumidifier_turn_on_datetime
    }

    pub fn set_dehumidifier_turn_on_datetime(&mut self, dt: u64)
        ensures
            *final(self) == (SharedData { dehumidifier_turn_on_datetime: dt, ..*old(self) }),
    {
        self.dehumidifier_turn_on_datetime = dt;
    }

    pub fn dehumidifier_turn_off_datetime(&self) -> (r: u64)
        ensures
            r == self.dehumidifier_turn_off_datetime,
    {
        self.dehumidifier_turn_off_datetime
    }

    pub fn set_dehumidifier_turn_off_datetime(&mut self, dt: u64)
        ensures
            *final(self) == (SharedData { dehumidifier_turn_off_datetime: dt, ..*old(self) }),
    {
        self.dehumidifier_turn_off_datetime = dt;
    }

    pub fn ventilator_turn_on_datetime(&self) -> (r: u64)
        ensures
            r == self.ventilator_turn_on_datetime,
    {
        self.ventilator_turn_on_datetime
    }

    pub fn set_ventilator_turn_on_datetime(&mut self, dt: u64)
        ensures
            *final(self) == (SharedData { ventilator_turn_on_datetime: dt, ..*old(self) }),
    {
        self.ventilator_turn_on_datetime = dt;
    }

    pub fn ventilator_turn_off_datetime(&self) -> (r: u64)
        ensures
            r == self.ventilator_turn_off_datetime,
    {
        self.ventilator_turn_off_datetime
    }

    pub fn set_ventilator_turn_off_datetime(&mut self, dt: u64)
        ensures
            *final(self) == (SharedData { ventilator_turn_off_datetime: dt, ..*old(self) }),
    {
        self.ventilator_turn_off_datetime = dt;
    }

    pub fn heater_turn_on_datetime(&self) -> (r: u64)
        ensures
            r == self.heater_turn_on_datetime,
    {
        self.heater_turn_on_datetime
    }

    pub fn set_heater_turn_on_datetime(&mut self, dt: u64)
        ensures
            *final(self) == (SharedData { heater_turn_on_datetime: dt, ..*old(self) }),
    {
        self.heater_turn_on_datetime = dt;
    }

    pub fn heater_turn_off_datetime(&self) -> (r: u64)
        ensures
            r == self.heater_turn_off_datetime,
    {
        self.heater_turn_off_datetime
    }

    pub fn set_heater_turn_off_datetime(&mut self, dt: u64)
        ensures
            *final(self) == (SharedData { heater_turn_off_datetime: dt, ..*old(self) }),
    {
        self.heater_turn_off_datetime = dt;
    }
}

} // verus!
