//! Folding validated sensor readings into the store, and the bounded
//! retry policy of a sensor poll.
//!
//! Acquiring a reading is the sensor collaborator's business: it hands the
//! engine a validated `(temp1, humidity1, temp2, humidity2)` tuple, or
//! reports that the attempt produced an error. The engine decides whether
//! to accept, retry after a fixed delay, or give the poll up, and on
//! acceptance folds the tuple into the store in one step.

use vstd::prelude::*;
use vstd::string::StringExecFns;
use crate::error::AtmosError;
use crate::shared_data::SharedData;
use crate::shared_data::time_in_range;

verus! {

/// How often one poll may be retried after an erroneous sensor answer.
pub const MAX_SENSOR_RETRIES: u8 = 10;

/// Seconds the poll rests before retrying after an erroneous answer.
pub const SENSOR_RETRY_DELAY_SECONDS: u64 = 4;

/// What a sensor poll does next.
#[derive(Clone, Copy, Debug, PartialEq, Eq, Structural)]
pub enum RetryAction {
    /// The answer is valid: fold it into the store.
    Accept,
    /// The answer was an error and retries remain: rest, then ask again.
    RetryAfterDelay,
    /// The answer was an error and the retries are spent: this poll fails.
    GiveUp,
}

/// The retry decision after one sensor answer: accept a valid answer,
/// retry an erroneous one while fewer than the maximum retries are spent,
/// give up otherwise.
pub fn next_retry_action(had_error: bool, current_tries: u8) -> (r: RetryAction)
    ensures
        r == (if !had_error {
            RetryAction::Accept
        } else if current_tries < MAX_SENSOR_RETRIES {
            RetryAction::RetryAfterDelay
        } else {
            RetryAction::GiveUp
        }),
{
    if !had_error {
        RetryAction::Accept
    } else if current_tries < MAX_SENSOR_RETRIES {
        RetryAction::RetryAfterDelay
    } else {
        RetryAction::GiveUp
    }
}

/// The error a poll reports once its retries are spent.
pub fn sensor_retries_exhausted_error() -> (r: AtmosError)
    ensures
        r matches AtmosError::SensorReadError(m) && m@
            == "MAX_RETRIES reached! Couldn't get data from sensor!"@,
{
    AtmosError::SensorReadError(
        String::from_str("MAX_RETRIES reached! Couldn't get data from sensor!"),
    )
}

/// Folds one validated reading into the store: the four raw values and the
/// reading instant move in, and the poll count rises by exactly one.
/// Averages, quality index and every device field are untouched until the
/// next control tick.
pub fn record_sensor_reading(
    sd: &mut SharedData,
    temp_1: i64,
    humidity_1: i64,
    temp_2: i64,
    humidity_2: i64,
    now: u64,
)
    requires
        old(sd).polling_iterations < u64::MAX,
        old(sd).times_wf(),
        time_in_range(now),
    ensures
        *final(sd) == (SharedData {
            polling_iterations: (old(sd).polling_iterations + 1) as u64,
            temp_1,
            humidity_1,
            temp_2,
            humidity_2,
            last_reading_time: now,
            ..*old(sd)
        }),
        final(sd).times_wf(),
{
    sd.increment_polling_iterations();
    sd.set_temp_one(temp_1);
    sd.set_humidity_one(humidity_1);
    sd.set_temp_two(temp_2);
    sd.set_humidity_two(humidity_2);
    sd.set_last_reading_datetime(now);
}

} // verus!
