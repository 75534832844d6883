//! The periodic control engine.
//!
//! Each tick recomputes the sensor averages and the quality index, and —
//! once the warm-up period of the first polls is over — evaluates the four
//! device controllers: the fridge and the dehumidifier as hysteresis
//! machines over the temperature and humidity bands, the humidifier and the
//! ventilator as fixed-duration pulses. Every transition is the pair of a
//! status change and the matching transition instant, applied only after
//! the relay accepted the command.
//!
//! All decisions are given twice: as a specification function that states
//! exactly when a transition is due, and as executable code proved to
//! return precisely that. The tick itself is proved to change nothing
//! during warm-up and to respect every cooldown.

use vstd::prelude::*;
use crate::config::MAX_CONTROL_TIMESTAMP;
use crate::config::Settings;
use crate::error::AtmosError;
use crate::mock_relay_ctrl::MockRelayBank;
use crate::relay_ctrl::RelayStatus;
use crate::shared_data::SharedData;
use crate::shared_data::time_in_range;

verus! {

/// Ticks take no control action until the sensors have been polled more
/// than this many times; early readings are considered unreliable.
pub const WARM_UP_POLLS: u64 = 4;

/// Halving that rounds toward zero, as machine division of a sum of two
/// readings does.
pub open spec fn div2_trunc(x: int) -> int {
    if x >= 0 {
        x / 2
    } else {
        -((-x) / 2)
    }
}

/// The arithmetic mean of two scaled readings, halves rounded toward zero.
pub open spec fn mean(a: int, b: int) -> int {
    div2_trunc(a + b)
}

/// The mean of two readings.
fn mean_i64(a: i64, b: i64) -> (r: i64)
    requires
        i64::MIN <= a + b <= i64::MAX,
    ensures
        r == mean(a as int, b as int),
{
    let sum: i64 = a + b;
    if let Some(half) = sum.checked_div(2) {
        half
    } else {
        proof {
            assert(false);
        }
        0
    }
}

/// Recomputes both averages from the current raw readings; nothing else
/// moves.
pub fn update_average_values(sd: &mut SharedData)
    requires
        i64::MIN <= old(sd).temp_1 + old(sd).temp_2 <= i64::MAX,
        i64::MIN <= old(sd).humidity_1 + old(sd).humidity_2 <= i64::MAX,
    ensures
        *final(sd) == (SharedData {
            average_temp: mean(old(sd).temp_1 as int, old(sd).temp_2 as int) as i64,
            average_humidity: mean(old(sd).humidity_1 as int, old(sd).humidity_2 as int) as i64,
            ..*old(sd)
        }),
        final(sd).average_temp == mean(old(sd).temp_1 as int, old(sd).temp_2 as int),
        final(sd).average_humidity == mean(old(sd).humidity_1 as int, old(sd).humidity_2 as int),
{
    let avg_temp = mean_i64(sd.temp_one(), sd.temp_two());
    let avg_humidity = mean_i64(sd.humidity_one(), sd.humidity_two());
    sd.set_average_temp(avg_temp);
    sd.set_average_humidity(avg_humidity);
}

/// The quality index a store with the given averages earns: 100 when both
/// averages lie in their ideal bands, 0 otherwise.
pub open spec fn quality_index_of(sd: SharedData, s: Settings) -> i64 {
    if s.temperature.spec_ideal_range().spec_contains(sd.average_temp)
        && s.humidity.spec_ideal_range().spec_contains(sd.average_humidity) {
        100
    } else {
        0
    }
}

/// Recomputes the quality index from the current averages; nothing else
/// moves.
pub fn update_atmosphere_quality_index(sd: &mut SharedData, settings: &Settings)
    ensures
        *final(sd) == (SharedData {
            atmospheric_quality_index: quality_index_of(*old(sd), *settings),
            ..*old(sd)
        }),
        final(sd).atmospheric_quality_index == 100 <==> (
        settings.temperature.spec_ideal_range().spec_contains(old(sd).average_temp)
            && settings.humidity.spec_ideal_range().spec_contains(old(sd).average_humidity)),
        final(sd).atmospheric_quality_index == 100 || final(sd).atmospheric_quality_index == 0,
{
    let temp_in_range = settings.temperature.ideal_range().contains(sd.average_temp());
    let humidity_in_range = settings.humidity.ideal_range().contains(sd.average_humidity());
    sd.set_atmosphere_quality_index(
        if temp_in_range && humidity_in_range {
            100
        } else {
            0
        },
    );
}

/// The transition the fridge controller owes at `now`: `On` when the
/// average temperature is in the high band, the fridge is off and the
/// cooldown since its last turn-off has elapsed; `Off` when the average is
/// in the ideal or low band, the fridge is on and the cooldown since its
/// last turn-on has elapsed; otherwise none. An average outside every band
/// never moves the fridge.
pub open spec fn fridge_decision_spec(sd: SharedData, s: Settings, now: u64) -> Option<
    RelayStatus,
> {
    let v = sd.average_temp;
    if s.temperature.spec_high_range().spec_contains(v) {
        if sd.fridge_status == RelayStatus::Off && now >= sd.fridge_turn_off_datetime
            + s.temperature.fridge_cooldown_duration {
            Some(RelayStatus::On)
        } else {
            None
        }
    } else if s.temperature.spec_ideal_range().spec_contains(v)
        || s.temperature.spec_low_range().spec_contains(v) {
        if sd.fridge_status == RelayStatus::On && now >= sd.fridge_turn_on_datetime
            + s.temperature.fridge_cooldown_duration {
            Some(RelayStatus::Off)
        } else {
            None
        }
    } else {
        None
    }
}

/// The store after the fridge moved to `target` at `now`: the status and
/// the matching transition instant change together, nothing else moves.
pub open spec fn fridge_with_transition(sd: SharedData, target: RelayStatus, now: u64) -> SharedData {
    if target == RelayStatus::On {
        SharedData { fridge_status: target, fridge_turn_on_datetime: now, ..sd }
    } else {
        SharedData { fridge_status: target, fridge_turn_off_datetime: now, ..sd }
    }
}

/// The transition the fridge controller owes at `now`.
pub fn fridge_decision(sd: &SharedData, now: u64, settings: &Settings) -> (r: Option<RelayStatus>)
    requires
        sd.times_wf(),
        settings.durations_wf(),
        now <= MAX_CONTROL_TIMESTAMP,
    ensures
        r == fridge_decision_spec(*sd, *settings, now),
{
    let v = sd.average_temp();
    if settings.temperature.high_range().contains(v) {
        if sd.fridge_status() == RelayStatus::Off && now >= sd.fridge_turn_off_datetime()
            + settings.temperature.fridge_cooldown_duration {
            Some(RelayStatus::On)
        } else {
            None
        }
    } else if settings.temperature.ideal_range().contains(v) || settings.temperature.low_range()
        .contains(v) {
        if sd.fridge_status() == RelayStatus::On && now >= sd.fridge_turn_on_datetime()
            + settings.temperature.fridge_cooldown_duration {
            Some(RelayStatus::Off)
        } else {
            None
        }
    } else {
        None
    }
}

/// Applies a fridge transition: status and the matching instant together.
pub fn apply_fridge_transition(sd: &mut SharedData, target: RelayStatus, now: u64)
    requires
        old(sd).times_wf(),
        now <= MAX_CONTROL_TIMESTAMP,
    ensures
        *final(sd) == fridge_with_transition(*old(sd), target, now),
        final(sd).times_wf(),
{
    sd.set_fridge_status(target);
    if target == RelayStatus::On {
        sd.set_fridge_turn_on_datetime(now);
    } else {
        sd.set_fridge_turn_off_datetime(now);
    }
}

/// One fridge evaluation against a relay bank: decide, command the relay,
/// and record the transition only once the relay accepted it.
pub fn handle_fridge(
    sd: &mut SharedData,
    relays: &mut MockRelayBank,
    now: u64,
    settings: &Settings,
) -> (r: Result<(), AtmosError>)
    requires
        old(sd).times_wf(),
        old(relays).wf(),
        settings.durations_wf(),
        now <= MAX_CONTROL_TIMESTAMP,
    ensures
        r is Ok,
        final(sd).times_wf(),
        final(relays).wf(),
        match fridge_decision_spec(*old(sd), *settings, now) {
            Some(target) => *final(sd) == fridge_with_transition(*old(sd), target, now)
                && final(relays).states@ == old(relays).states@.update(
                settings.relay_pins.fridge as int,
                target,
            ),
            None => *final(sd) == *old(sd) && *final(relays) == *old(relays),
        },
{
    if let Some(target) = fridge_decision(sd, now, settings) {
        relays.mock_change_relay_status(settings.relay_pins.fridge, target)?;
        apply_fridge_transition(sd, target, now);
    }
    Ok(())
}

/// The transition the dehumidifier controller owes at `now`: `On` when the
/// average humidity is in the high band and it is off, `Off` when the
/// average has left the high band and it is on. No cooldown is enforced.
pub open spec fn dehumidifier_decision_spec(sd: SharedData, s: Settings, now: u64) -> Option<
    RelayStatus,
> {
    let v = sd.average_humidity;
    if s.humidity.spec_high_range().spec_contains(v) {
        if sd.dehumidifier_status == RelayStatus::Off {
            Some(RelayStatus::On)
        } else {
            None
        }
    } else {
        if sd.dehumidifier_status == RelayStatus::On {
            Some(RelayStatus::Off)
        } else {
            None
        }
    }
}

/// The store after the dehumidifier moved to `target` at `now`.
pub open spec fn dehumidifier_with_transition(
    sd: SharedData,
    target: RelayStatus,
    now: u64,
) -> SharedData {
    if target == RelayStatus::On {
        SharedData { dehumidifier_status: target, dehumidifier_turn_on_datetime: now, ..sd }
    } else {
        SharedData { dehumidifier_status: target, dehumidifier_turn_off_datetime: now, ..sd }
    }
}

/// The transition the dehumidifier controller owes at `now`.
pub fn dehumidifier_decision(sd: &SharedData, now: u64, settings: &Settings) -> (r: Option<
    RelayStatus,
>)
    ensures
        r == dehumidifier_decision_spec(*sd, *settings, now),
{
    let v = sd.average_humidity();
    if settings.humidity.high_range().contains(v) {
        if sd.dehumidifier_status() == RelayStatus::Off {
            Some(RelayStatus::On)
        } else {
            None
        }
    } else {
        if sd.dehumidifier_status() == RelayStatus::On {
            Some(RelayStatus::Off)
        } else {
            None
        }
    }
}

/// Applies a dehumidifier transition: status and the matching instant
/// together.
pub fn apply_dehumidifier_transition(sd: &mut SharedData, target: RelayStatus, now: u64)
    requires
        old(sd).times_wf(),
        now <= MAX_CONTROL_TIMESTAMP,
    ensures
        *final(sd) == dehumidifier_with_transition(*old(sd), target, now),
        final(sd).times_wf(),
{
    sd.set_dehumidifier_status(target);
    if target == RelayStatus::On {
        sd.set_dehumidifier_turn_on_datetime(now);
    } else {
        sd.set_dehumidifier_turn_off_datetime(now);
    }
}

/// One dehumidifier evaluation against a relay bank.
pub fn handle_dehumidifier(
    sd: &mut SharedData,
    relays: &mut MockRelayBank,
    now: u64,
    settings: &Settings,
) -> (r: Result<(), AtmosError>)
    requires
        old(sd).times_wf(),
        old(relays).wf(),
        settings.durations_wf(),
        now <= MAX_CONTROL_TIMESTAMP,
    ensures
        r is Ok,
        final(sd).times_wf(),
        final(relays).wf(),
        match dehumidifier_decision_spec(*old(sd), *settings, now) {
            Some(target) => *final(sd) == dehumidifier_with_transition(*old(sd), target, now)
                && final(relays).states@ == old(relays).states@.update(
                settings.relay_pins.dehumidifier as int,
                target,
            ),
            None => *final(sd) == *old(sd) && *final(relays) == *old(relays),
        },
{
    if let Some(target) = dehumidifier_decision(sd, now, settings) {
        relays.mock_change_relay_status(settings.relay_pins.dehumidifier, target)?;
        apply_dehumidifier_transition(sd, target, now);
    }
    Ok(())
}

/// Whether the humidifier owes a pulse at `now`: the average humidity is
/// in the low band and the cooldown since the last pulse's turn-off has
/// elapsed.
pub open spec fn humidifier_pulse_due(sd: SharedData, s: Settings, now: u64) -> bool {
    s.humidity.spec_low_range().spec_contains(sd.average_humidity) && now
        >= sd.humidifier_turn_off_datetime + s.humidity.humidifier_cooldown_duration
}

/// The store once a humidifier pulse begun at `now` has run its configured
/// activation: on at `now`, off again exactly the activation later.
pub open spec fn humidifier_after_pulse(sd: SharedData, s: Settings, now: u64) -> SharedData {
    SharedData {
        humidifier_status: RelayStatus::Off,
        humidifier_turn_on_datetime: now,
        humidifier_turn_off_datetime: (now + s.humidity.humidifier_activation_duration) as u64,
        ..sd
    }
}

/// A humidifier pulse has just begun at `t_on`: the humidifier reads on
/// with its turn-on instant recorded, nothing else has moved.
pub open spec fn humidifier_pulse_begun(pre: SharedData, post: SharedData, t_on: u64) -> bool {
    post == (SharedData {
        humidifier_status: RelayStatus::On,
        humidifier_turn_on_datetime: t_on,
        ..pre
    })
}

/// A humidifier pulse has just completed at `t_off`.
pub open spec fn humidifier_pulse_completed(pre: SharedData, post: SharedData, t_off: u64) -> bool {
    post == (SharedData {
        humidifier_status: RelayStatus::Off,
        humidifier_turn_off_datetime: t_off,
        ..pre
    })
}

/// Whether the humidifier owes a pulse at `now`.
pub fn humidifier_pulse_is_due(sd: &SharedData, now: u64, settings: &Settings) -> (r: bool)
    requires
        sd.times_wf(),
        settings.durations_wf(),
        now <= MAX_CONTROL_TIMESTAMP,
    ensures
        r == humidifier_pulse_due(*sd, *settings, now),
{
    settings.humidity.low_range().contains(sd.average_humidity()) && now
        >= sd.humidifier_turn_off_datetime() + settings.humidity.humidifier_cooldown_duration
}

/// Records that the humidifier was switched on at `now` for a pulse; call
/// it only once the relay accepted the on command.
pub fn begin_humidifier_pulse(sd: &mut SharedData, now: u64)
    requires
        old(sd).times_wf(),
        now <= MAX_CONTROL_TIMESTAMP,
    ensures
        humidifier_pulse_begun(*old(sd), *final(sd), now),
        final(sd).times_wf(),
{
    sd.set_humidifier_status(RelayStatus::On);
    sd.set_humidifier_turn_on_datetime(now);
}

/// Records that the humidifier was switched off at `now`, which must be at
/// least the configured activation after the recorded turn-on; call it
/// only once the relay accepted the off command.
pub fn complete_humidifier_pulse(sd: &mut SharedData, now: u64, settings: &Settings)
    requires
        old(sd).times_wf(),
        time_in_range(now),
        now >= old(sd).humidifier_turn_on_datetime
            + settings.humidity.humidifier_activation_duration,
    ensures
        humidifier_pulse_completed(*old(sd), *final(sd), now),
        final(sd).times_wf(),
        final(sd).humidifier_turn_off_datetime >= final(sd).humidifier_turn_on_datetime
            + settings.humidity.humidifier_activation_duration,
{
    sd.set_humidifier_status(RelayStatus::Off);
    sd.set_humidifier_turn_off_datetime(now);
}

/// One humidifier evaluation against a relay bank. A due pulse runs to
/// completion within the call: relay on, the activation modelled as
/// elapsed, relay off; the recorded turn-off is the turn-on plus the
/// configured activation.
pub fn handle_humidifier(
    sd: &mut SharedData,
    relays: &mut MockRelayBank,
    now: u64,
    settings: &Settings,
) -> (r: Result<(), AtmosError>)
    requires
        old(sd).times_wf(),
        old(relays).wf(),
        settings.durations_wf(),
        now <= MAX_CONTROL_TIMESTAMP,
    ensures
        r is Ok,
        final(sd).times_wf(),
        final(relays).wf(),
        humidifier_pulse_due(*old(sd), *settings, now) ==> *final(sd) == humidifier_after_pulse(
            *old(sd),
            *settings,
            now,
        ) && final(relays).states@ == old(relays).states@.update(
            settings.relay_pins.humidifier as int,
            RelayStatus::Off,
        ),
        !humidifier_pulse_due(*old(sd), *settings, now) ==> *final(sd) == *old(sd) && *final(relays)
            == *old(relays),
{
    if humidifier_pulse_is_due(sd, now, settings) {
        relays.mock_change_relay_status(settings.relay_pins.humidifier, RelayStatus::On)?;
        begin_humidifier_pulse(sd, now);
        let off_at = now + settings.humidity.humidifier_activation_duration;
        relays.mock_change_relay_status(settings.relay_pins.humidifier, RelayStatus::Off)?;
        complete_humidifier_pulse(sd, off_at, settings);
        proof {
            assert(final(relays).states@ =~= old(relays).states@.update(
                settings.relay_pins.humidifier as int,
                RelayStatus::Off,
            ));
        }
    }
    Ok(())
}

/// The store after the humidifier moved to `target` at `now`: the status
/// and the matching transition instant change together. Manual control
/// uses this; the tick's own pulses go through begin and complete.
pub open spec fn humidifier_with_transition(
    sd: SharedData,
    target: RelayStatus,
    now: u64,
) -> SharedData {
    if target == RelayStatus::On {
        SharedData { humidifier_status: target, humidifier_turn_on_datetime: now, ..sd }
    } else {
        SharedData { humidifier_status: target, humidifier_turn_off_datetime: now, ..sd }
    }
}

/// Applies a humidifier transition: status and the matching instant
/// together.
pub fn apply_humidifier_transition(sd: &mut SharedData, target: RelayStatus, now: u64)
    requires
        old(sd).times_wf(),
        now <= MAX_CONTROL_TIMESTAMP,
    ensures
        *final(sd) == humidifier_with_transition(*old(sd), target, now),
        final(sd).times_wf(),
{
    sd.set_humidifier_status(target);
    if target == RelayStatus::On {
        sd.set_humidifier_turn_on_datetime(now);
    } else {
        sd.set_humidifier_turn_off_datetime(now);
    }
}

/// Whether the ventilator owes a pulse at `now`: it is off and its
/// configured rest interval since the last turn-off has elapsed. The
/// ventilator never reads the sensors.
pub open spec fn ventilator_pulse_due(sd: SharedData, s: Settings, now: u64) -> bool {
    sd.ventilator_status == RelayStatus::Off && now >= sd.ventilator_turn_off_datetime
        + s.ventilation.interval
}

/// The store once a ventilator pulse begun at `now` has run its configured
/// duration.
pub open spec fn ventilator_after_pulse(sd: SharedData, s: Settings, now: u64) -> SharedData {
    SharedData {
        ventilator_status: RelayStatus::Off,
        ventilator_turn_on_datetime: now,
        ventilator_turn_off_datetime: (now + s.ventilation.duration) as u64,
        ..sd
    }
}

/// A ventilator pulse has just begun at `t_on`.
pub open spec fn ventilator_pulse_begun(pre: SharedData, post: SharedData, t_on: u64) -> bool {
    post == (SharedData {
        ventilator_status: RelayStatus::On,
        ventilator_turn_on_datetime: t_on,
        ..pre
    })
}

/// A ventilator pulse has just completed at `t_off`.
pub open spec fn ventilator_pulse_completed(pre: SharedData, post: SharedData, t_off: u64) -> bool {
    post == (SharedData {
        ventilator_status: RelayStatus::Off,
        ventilator_turn_off_datetime: t_off,
        ..pre
    })
}

/// Whether the ventilator owes a pulse at `now`.
pub fn ventilator_pulse_is_due(sd: &SharedData, now: u64, settings: &Settings) -> (r: bool)
    requires
        sd.times_wf(),
        settings.durations_wf(),
        now <= MAX_CONTROL_TIMESTAMP,
    ensures
        r == ventilator_pulse_due(*sd, *settings, now),
{
    sd.ventilator_status() == RelayStatus::Off && now >= sd.ventilator_turn_off_datetime()
        + settings.ventilation.interval
}

/// Records that the ventilator was switched on at `now` for a pulse.
pub fn begin_ventilator_pulse(sd: &mut SharedData, now: u64)
    requires
        old(sd).times_wf(),
        now <= MAX_CONTROL_TIMESTAMP,
    ensures
        ventilator_pulse_begun(*old(sd), *final(sd), now),
        final(sd).times_wf(),
{
    sd.set_ventilator_status(RelayStatus::On);
    sd.set_ventilator_turn_on_datetime(now);
}

/// Records that the ventilator was switched off at `now`, which must be at
/// least the configured duration after the recorded turn-on.
pub fn complete_ventilator_pulse(sd: &mut SharedData, now: u64, settings: &Settings)
    requires
        old(sd).times_wf(),
        time_in_range(now),
        now >= old(sd).ventilator_turn_on_datetime + settings.ventilation.duration,
    ensures
        ventilator_pulse_completed(*old(sd), *final(sd), now),
        final(sd).times_wf(),
        final(sd).ventilator_turn_off_datetime >= final(sd).ventilator_turn_on_datetime
            + settings.ventilation.duration,
{
    sd.set_ventilator_status(RelayStatus::Off);
    sd.set_ventilator_turn_off_datetime(now);
}

/// The store after the ventilator moved to `target` at `now`: the status
/// and the matching transition instant change together. Manual control
/// uses this; the tick's own pulses go through begin and complete.
pub open spec fn ventilator_with_transition(
    sd: SharedData,
    target: RelayStatus,
    now: u64,
) -> SharedData {
    if target == RelayStatus::On {
        SharedData { ventilator_status: target, ventilator_turn_on_datetime: now, ..sd }
    } else {
        SharedData { ventilator_status: target, ventilator_turn_off_datetime: now, ..sd }
    }
}

/// Applies a ventilator transition: status and the matching instant
/// together.
pub fn apply_ventilator_transition(sd: &mut SharedData, target: RelayStatus, now: u64)
    requires
        old(sd).times_wf(),
        now <= MAX_CONTROL_TIMESTAMP,
    ensures
        *final(sd) == ventilator_with_transition(*old(sd), target, now),
        final(sd).times_wf(),
{
    sd.set_ventilator_status(target);
    if target == RelayStatus::On {
        sd.set_ventilator_turn_on_datetime(now);
    } else {
        sd.set_ventilator_turn_off_datetime(now);
    }
}

/// One ventilator evaluation against a relay bank; a due pulse runs to
/// completion within the call.
pub fn handle_ventilator(
    sd: &mut SharedData,
    relays: &mut MockRelayBank,
    now: u64,
    settings: &Settings,
) -> (r: Result<(), AtmosError>)
    requires
        old(sd).times_wf(),
        old(relays).wf(),
        settings.durations_wf(),
        now <= MAX_CONTROL_TIMESTAMP,
    ensures
        r is Ok,
        final(sd).times_wf(),
        final(relays).wf(),
        ventilator_pulse_due(*old(sd), *settings, now) ==> *final(sd) == ventilator_after_pulse(
            *old(sd),
            *settings,
            now,
        ) && final(relays).states@ == old(relays).states@.update(
            settings.relay_pins.ventilator_or_heater as int,
            RelayStatus::Off,
        ),
        !ventilator_pulse_due(*old(sd), *settings, now) ==> *final(sd) == *old(sd) && *final(relays)
            == *old(relays),
{
    if ventilator_pulse_is_due(sd, now, settings) {
        relays.mock_change_relay_status(settings.relay_pins.ventilator_or_heater, RelayStatus::On)?;
        begin_ventilator_pulse(sd, now);
        let off_at = now + settings.ventilation.duration;
        relays.mock_change_relay_status(
            settings.relay_pins.ventilator_or_heater,
            RelayStatus::Off,
        )?;
        complete_ventilator_pulse(sd, off_at, settings);
        proof {
            assert(final(relays).states@ =~= old(relays).states@.update(
                settings.relay_pins.ventilator_or_heater as int,
                RelayStatus::Off,
            ));
        }
    }
    Ok(())
}

/// The fridge's part of a tick: the store and the relay bank after the
/// fridge controller evaluated at `now`.
pub open spec fn fridge_step(
    sd: SharedData,
    states: Seq<RelayStatus>,
    s: Settings,
    now: u64,
) -> (SharedData, Seq<RelayStatus>) {
    match fridge_decision_spec(sd, s, now) {
        Some(target) => (
            fridge_with_transition(sd, target, now),
            states.update(s.relay_pins.fridge as int, target),
        ),
        None => (sd, states),
    }
}

/// The dehumidifier's part of a tick.
pub open spec fn dehumidifier_step(
    sd: SharedData,
    states: Seq<RelayStatus>,
    s: Settings,
    now: u64,
) -> (SharedData, Seq<RelayStatus>) {
    match dehumidifier_decision_spec(sd, s, now) {
        Some(target) => (
            dehumidifier_with_transition(sd, target, now),
            states.update(s.relay_pins.dehumidifier as int, target),
        ),
        None => (sd, states),
    }
}

/// The humidifier's part of a tick.
pub open spec fn humidifier_step(
    sd: SharedData,
    states: Seq<RelayStatus>,
    s: Settings,
    now: u64,
) -> (SharedData, Seq<RelayStatus>) {
    if humidifier_pulse_due(sd, s, now) {
        (
            humidifier_after_pulse(sd, s, now),
            states.update(s.relay_pins.humidifier as int, RelayStatus::Off),
        )
    } else {
        (sd, states)
    }
}

/// The ventilator's part of a tick.
pub open spec fn ventilator_step(
    sd: SharedData,
    states: Seq<RelayStatus>,
    s: Settings,
    now: u64,
) -> (SharedData, Seq<RelayStatus>) {
    if ventilator_pulse_due(sd, s, now) {
        (
            ventilator_after_pulse(sd, s, now),
            states.update(s.relay_pins.ventilator_or_heater as int, RelayStatus::Off),
        )
    } else {
        (sd, states)
    }
}

/// The four controllers evaluated in turn: fridge, dehumidifier,
/// humidifier, ventilator.
pub open spec fn tick_devices(
    sd: SharedData,
    states: Seq<RelayStatus>,
    s: Settings,
    now: u64,
) -> (SharedData, Seq<RelayStatus>) {
    let after_fridge = fridge_step(sd, states, s, now);
    let after_dehumidifier = dehumidifier_step(after_fridge.0, after_fridge.1, s, now);
    let after_humidifier = humidifier_step(after_dehumidifier.0, after_dehumidifier.1, s, now);
    ventilator_step(after_humidifier.0, after_humidifier.1, s, now)
}

/// The store with its derived values recomputed, as every tick leaves them
/// before the controllers run.
pub open spec fn with_derived_values(sd: SharedData, s: Settings) -> SharedData {
    let averaged = SharedData {
        average_temp: mean(sd.temp_1 as int, sd.temp_2 as int) as i64,
        average_humidity: mean(sd.humidity_1 as int, sd.humidity_2 as int) as i64,
        ..sd
    };
    SharedData { atmospheric_quality_index: quality_index_of(averaged, s), ..averaged }
}

/// One full control tick at `now`: the store and the relay bank it leaves
/// behind. Derived values are always recomputed; the controllers run only
/// once the warm-up polls are behind.
pub open spec fn tick_spec(
    sd: SharedData,
    states: Seq<RelayStatus>,
    s: Settings,
    now: u64,
) -> (SharedData, Seq<RelayStatus>) {
    let mid = with_derived_values(sd, s);
    if sd.polling_iterations > WARM_UP_POLLS {
        tick_devices(mid, states, s, now)
    } else {
        (mid, states)
    }
}

/// One control tick at `now`: recompute the averages and the quality
/// index, then — only past the warm-up polls — evaluate the fridge, the
/// dehumidifier, the humidifier and the ventilator in turn against the
/// relay bank.
pub fn control_tick(
    sd: &mut SharedData,
    relays: &mut MockRelayBank,
    now: u64,
    settings: &Settings,
) -> (r: Result<(), AtmosError>)
    requires
        old(sd).times_wf(),
        old(relays).wf(),
        settings.durations_wf(),
        now <= MAX_CONTROL_TIMESTAMP,
        i64::MIN <= old(sd).temp_1 + old(sd).temp_2 <= i64::MAX,
        i64::MIN <= old(sd).humidity_1 + old(sd).humidity_2 <= i64::MAX,
    ensures
        r is Ok,
        final(sd).times_wf(),
        final(relays).wf(),
        *final(sd) == tick_spec(*old(sd), old(relays).states@, *settings, now).0,
        final(relays).states@ == tick_spec(*old(sd), old(relays).states@, *settings, now).1,
        // After every tick, the averages are the means of the raw readings.
        final(sd).average_temp == mean(old(sd).temp_1 as int, old(sd).temp_2 as int),
        final(sd).average_humidity == mean(old(sd).humidity_1 as int, old(sd).humidity_2 as int),
        // The quality index is 100 exactly when both fresh averages are ideal, else 0.
        final(sd).atmospheric_quality_index == 100 <==> (
        settings.temperature.spec_ideal_range().spec_contains(final(sd).average_temp)
            && settings.humidity.spec_ideal_range().spec_contains(final(sd).average_humidity)),
        final(sd).atmospheric_quality_index == 100 || final(sd).atmospheric_quality_index == 0,
        // During warm-up no controller acts: no status, no instant, no relay moves.
        old(sd).polling_iterations <= WARM_UP_POLLS ==> *final(sd) == (SharedData {
            average_temp: final(sd).average_temp,
            average_humidity: final(sd).average_humidity,
            atmospheric_quality_index: final(sd).atmospheric_quality_index,
            ..*old(sd)
        }) && *final(relays) == *old(relays),
        // The fridge leaves its state only with its cooldown elapsed.
        final(sd).fridge_status != old(sd).fridge_status ==> (old(sd).fridge_status
            == RelayStatus::Off ==> now >= old(sd).fridge_turn_off_datetime
            + settings.temperature.fridge_cooldown_duration) && (old(sd).fridge_status
            == RelayStatus::On ==> now >= old(sd).fridge_turn_on_datetime
            + settings.temperature.fridge_cooldown_duration),
{
    update_average_values(sd);
    update_atmosphere_quality_index(sd, settings);
    if sd.polling_iterations() > WARM_UP_POLLS {
        handle_fridge(sd, relays, now, settings)?;
        handle_dehumidifier(sd, relays, now, settings)?;
        handle_humidifier(sd, relays, now, settings)?;
        handle_ventilator(sd, relays, now, settings)?;
    }
    Ok(())
}

/// Relies on time::OffsetDateTime::now_utc (read through unix_timestamp):
/// the current civil time as whole seconds since the Unix epoch. Nothing
/// is assumed of the clock's value.
#[verifier::external_body]
fn now_unix() -> i64 {
    time::OffsetDateTime::now_utc().unix_timestamp()
}

/// The current time as an instant the engine works with, or `None` when
/// the clock reports a time outside the engine's working range (before the
/// Unix epoch or past year 9999).
pub fn current_control_time() -> (r: Option<u64>)
    ensures
        r matches Some(t) ==> t <= MAX_CONTROL_TIMESTAMP,
{
    let t = now_unix();
    if 0 <= t && t <= MAX_CONTROL_TIMESTAMP as i64 {
        Some(t as u64)
    } else {
        None
    }
}

/// One control tick at the current civil time. Whatever instant the clock
/// reports: if it lies in the engine's working range the tick runs at it
/// and that instant is returned; otherwise nothing moves and `None` is
/// returned.
pub fn control_tick_now(
    sd: &mut SharedData,
    relays: &mut MockRelayBank,
    settings: &Settings,
) -> (r: Option<u64>)
    requires
        old(sd).times_wf(),
        old(relays).wf(),
        settings.durations_wf(),
        i64::MIN <= old(sd).temp_1 + old(sd).temp_2 <= i64::MAX,
        i64::MIN <= old(sd).humidity_1 + old(sd).humidity_2 <= i64::MAX,
    ensures
        final(sd).times_wf(),
        final(relays).wf(),
        r matches Some(t) ==> t <= MAX_CONTROL_TIMESTAMP && *final(sd) == tick_spec(
            *old(sd),
            old(relays).states@,
            *settings,
            t,
        ).0 && final(relays).states@ == tick_spec(*old(sd), old(relays).states@, *settings, t).1,
        r is None ==> *final(sd) == *old(sd) && *final(relays) == *old(relays),
{
    match current_control_time() {
        Some(now) => {
            let tick = control_tick(sd, relays, now, settings);
            if tick.is_ok() {
                Some(now)
            } else {
                proof {
                    assert(false);
                }
                None
            }
        },
        None => None,
    }
}

/// Band law at the fridge: with ordered bands, the stored average
/// temperature can never satisfy the on condition's band and the off
/// condition's bands at once, so a single band membership determines the
/// fridge's target.
pub proof fn lemma_fridge_target_unambiguous(sd: SharedData, s: Settings)
    requires
        s.temperature.bands_ordered(),
    ensures
        !(s.temperature.spec_high_range().spec_contains(sd.average_temp) && (
        s.temperature.spec_ideal_range().spec_contains(sd.average_temp)
            || s.temperature.spec_low_range().spec_contains(sd.average_temp))),
{
    crate::config::lemma_temperature_bands_exclusive(s.temperature, sd.average_temp);
}

/// Cooldown law of the fridge: while the fridge is on and its cooldown
/// since the recorded turn-on has not elapsed, no tick input makes the
/// decision turn it off; symmetrically, while it is off and the cooldown
/// since the recorded turn-off has not elapsed, no tick input turns it on.
pub proof fn lemma_fridge_cooldown_respected(sd: SharedData, s: Settings, now: u64)
    ensures
        sd.fridge_status == RelayStatus::On && now < sd.fridge_turn_on_datetime
            + s.temperature.fridge_cooldown_duration ==> fridge_decision_spec(sd, s, now) != Some(
            RelayStatus::Off,
        ),
        sd.fridge_status == RelayStatus::Off && now < sd.fridge_turn_off_datetime
            + s.temperature.fridge_cooldown_duration ==> fridge_decision_spec(sd, s, now) != Some(
            RelayStatus::On,
        ),
{
}

/// The dehumidifier only ever moves toward its target: a transition is
/// issued exactly when the status differs from the band's target, so a
/// second evaluation at the same reading never moves it again.
pub proof fn lemma_dehumidifier_moves_only_to_target(sd: SharedData, s: Settings, now: u64)
    ensures
        dehumidifier_decision_spec(sd, s, now) == Some(RelayStatus::On) <==> (
        s.humidity.spec_high_range().spec_contains(sd.average_humidity) && sd.dehumidifier_status
            != RelayStatus::On),
        dehumidifier_decision_spec(sd, s, now) == Some(RelayStatus::Off) <==> (
        !s.humidity.spec_high_range().spec_contains(sd.average_humidity) && sd.dehumidifier_status
            != RelayStatus::Off),
{
    assert(sd.dehumidifier_status == RelayStatus::On || sd.dehumidifier_status
        == RelayStatus::Off);
}

/// Pulse law of the humidifier: a pulse begun at `t_on` and completed at
/// `t_off` — which the completion contract puts at least the configured
/// activation after the recorded turn-on — leaves a turn-off instant at
/// least the activation after the turn-on instant.
pub proof fn lemma_humidifier_pulse_respects_duration(
    pre: SharedData,
    mid: SharedData,
    post: SharedData,
    s: Settings,
    t_on: u64,
    t_off: u64,
)
    requires
        humidifier_pulse_begun(pre, mid, t_on),
        t_off >= mid.humidifier_turn_on_datetime + s.humidity.humidifier_activation_duration,
        humidifier_pulse_completed(mid, post, t_off),
    ensures
        post.humidifier_turn_off_datetime >= post.humidifier_turn_on_datetime
            + s.humidity.humidifier_activation_duration,
        post.humidifier_turn_on_datetime == t_on,
        post.humidifier_turn_off_datetime == t_off,
{
}

/// Pulse law of the ventilator: the same, with the ventilator's
/// configured duration.
pub proof fn lemma_ventilator_pulse_respects_duration(
    pre: SharedData,
    mid: SharedData,
    post: SharedData,
    s: Settings,
    t_on: u64,
    t_off: u64,
)
    requires
        ventilator_pulse_begun(pre, mid, t_on),
        t_off >= mid.ventilator_turn_on_datetime + s.ventilation.duration,
        ventilator_pulse_completed(mid, post, t_off),
    ensures
        post.ventilator_turn_off_datetime >= post.ventilator_turn_on_datetime
            + s.ventilation.duration,
        post.ventilator_turn_on_datetime == t_on,
        post.ventilator_turn_off_datetime == t_off,
{
}

/// The pulse law holds of the single-call pulses the tick itself runs:
/// after a due pulse, the recorded turn-off is exactly the turn-on plus
/// the configured activation or duration.
pub proof fn lemma_tick_pulses_respect_duration(sd: SharedData, s: Settings, now: u64)
    requires
        time_in_range(now),
        s.durations_wf(),
    ensures
        humidifier_after_pulse(sd, s, now).humidifier_turn_off_datetime == humidifier_after_pulse(
            sd,
            s,
            now,
        ).humidifier_turn_on_datetime + s.humidity.humidifier_activation_duration,
        ventilator_after_pulse(sd, s, now).ventilator_turn_off_datetime == ventilator_after_pulse(
            sd,
            s,
            now,
        ).ventilator_turn_on_datetime + s.ventilation.duration,
{
}

/// Cooldown law at the tick: whatever a tick's inputs, a tick that leaves
/// the fridge with a changed status found the cooldown since the recorded
/// opposite transition elapsed. Since every fridge transition happens
/// through a tick, no run of ticks can ever short-cycle the fridge.
pub proof fn lemma_tick_respects_fridge_cooldown(
    sd: SharedData,
    states: Seq<RelayStatus>,
    s: Settings,
    now: u64,
)
    ensures
        tick_spec(sd, states, s, now).0.fridge_status != sd.fridge_status ==> (sd.fridge_status
            == RelayStatus::Off ==> now >= sd.fridge_turn_off_datetime
            + s.temperature.fridge_cooldown_duration) && (sd.fridge_status == RelayStatus::On
            ==> now >= sd.fridge_turn_on_datetime + s.temperature.fridge_cooldown_duration),
{
}

/// Pairing law: a tick that changes a device's status records the
/// matching transition instant in the same step — a status never diverges
/// from its bookkeeping.
pub proof fn lemma_tick_pairs_status_with_instant(
    sd: SharedData,
    states: Seq<RelayStatus>,
    s: Settings,
    now: u64,
)
    ensures
        tick_spec(sd, states, s, now).0.fridge_status != sd.fridge_status ==> (tick_spec(
            sd,
            states,
            s,
            now,
        ).0.fridge_status == RelayStatus::On ==> tick_spec(sd, states, s, now).0.fridge_turn_on_datetime
            == now) && (tick_spec(sd, states, s, now).0.fridge_status == RelayStatus::Off
            ==> tick_spec(sd, states, s, now).0.fridge_turn_off_datetime == now),
        tick_spec(sd, states, s, now).0.dehumidifier_status != sd.dehumidifier_status ==> (
        tick_spec(sd, states, s, now).0.dehumidifier_status == RelayStatus::On ==> tick_spec(
            sd,
            states,
            s,
            now,
        ).0.dehumidifier_turn_on_datetime == now) && (tick_spec(sd, states, s, now).0.dehumidifier_status
            == RelayStatus::Off ==> tick_spec(sd, states, s, now).0.dehumidifier_turn_off_datetime
            == now),
{
}

/// Warm-up law: while the polls have not passed the warm-up count, a
/// tick recomputes the derived values and does nothing else — every device
/// status, every transition instant and every relay state is left as it
/// was.
pub proof fn lemma_warm_up_suppresses_control(
    sd: SharedData,
    states: Seq<RelayStatus>,
    s: Settings,
    now: u64,
)
    requires
        sd.polling_iterations <= WARM_UP_POLLS,
    ensures
        tick_spec(sd, states, s, now).0 == (SharedData {
            average_temp: tick_spec(sd, states, s, now).0.average_temp,
            average_humidity: tick_spec(sd, states, s, now).0.average_humidity,
            atmospheric_quality_index: tick_spec(sd, states, s, now).0.atmospheric_quality_index,
            ..sd
        }),
        tick_spec(sd, states, s, now).1 == states,
{
}

} // verus!
