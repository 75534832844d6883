use atmos::initialization::initialize_shared_data;
use atmos::mock_relay_ctrl::MockRelayBank;
use atmos::monitor_atmosphere::apply_fridge_transition;
use atmos::monitor_atmosphere::apply_humidifier_transition;
use atmos::monitor_atmosphere::begin_ventilator_pulse;
use atmos::monitor_atmosphere::complete_ventilator_pulse;
use atmos::monitor_atmosphere::current_control_time;
use atmos::read_atmosphere::record_sensor_reading;
use atmos::relay_ctrl::RelayStatus;
use atmos::routes::atmosphere::history_limit;
use atmos::routes::atmosphere::AvgAtmosphereData;
use atmos::routes::atmosphere::FullData;
use atmos::routes::index::color_status;
use atmos::routes::relay_control::manual_toggle_target;
use atmos::routes::relay_control::relay_change_message;
use atmos::routes::relay_status::AllStatuses;
use atmos::routes::relay_status::DehumidifierStatus;
use atmos::routes::relay_status::FridgeStatus;
use atmos::routes::relay_status::HumidifierStatus;
use atmos::routes::relay_status::VentilatorStatus;
use atmos::config::HumiditySettings;
use atmos::config::PollingIntervalSettings;
use atmos::config::RelayPinSettings;
use atmos::config::SensorReadCooldownSettings;
use atmos::config::Settings;
use atmos::config::SqliteSettings;
use atmos::config::TemperatureSettings;
use atmos::config::VentilationSettings;
use atmos::config::WebserverSettings;

fn settings_for_routes() -> Settings {
    Settings {
        temperature: TemperatureSettings {
            low_range_start: 1500,
            low_range_end: 2000,
            high_range_start: 2500,
            high_range_end: 3000,
            ideal_range_start: 2000,
            ideal_range_end: 2500,
            fridge_cooldown_duration: 1200,
        },
        humidity: HumiditySettings {
            low_range_start: 0,
            low_range_end: 4000,
            high_range_start: 6000,
            high_range_end: 10000,
            ideal_range_start: 4000,
            ideal_range_end: 6000,
            humidifier_cooldown_duration: 600,
            humidifier_activation_duration: 30,
            dehumidifier_cooldown_duration: 0,
        },
        ventilation: VentilationSettings { interval: 300, duration: 60 },
        relay_pins: RelayPinSettings {
            humidifier: 3,
            dehumidifier: 2,
            ventilator_or_heater: 4,
            fridge: 1,
        },
        webserver: WebserverSettings {
            host: String::from("127.0.0.1"),
            port: 8080,
        },
        sensor_read_cooldown: SensorReadCooldownSettings { duration: 60 },
        polling_interval: PollingIntervalSettings { duration: 60 },
        sqlite: SqliteSettings {
            db_name: String::from("atmosphere.db"),
        },
    }
}

#[test]
fn initial_store_values() {
    let sd = initialize_shared_data();
    assert_eq!(sd.polling_iterations(), 0);
    assert_eq!(sd.temp_one(), 1300);
    assert_eq!(sd.humidity_one(), 8000);
    assert_eq!(sd.temp_two(), 1300);
    assert_eq!(sd.humidity_two(), 8000);
    assert_eq!(sd.average_temp(), 0);
    assert_eq!(sd.average_humidity(), 8000);
    assert_eq!(sd.atmosphere_quality_index(), 0);
    assert_eq!(sd.fridge_status(), RelayStatus::Off);
    assert_eq!(sd.heater_status(), RelayStatus::Off);
    assert_eq!(sd.last_reading_datetime(), 0);
    assert_eq!(sd.heater_turn_off_datetime(), 0);
}

#[test]
fn store_accessors_round_trip() {
    let mut sd = initialize_shared_data();
    sd.set_temp_one(2050);
    sd.set_humidity_two(4100);
    sd.set_heater_status(RelayStatus::On);
    sd.set_heater_turn_on_datetime(777);
    sd.set_last_reading_datetime(900);
    assert_eq!(sd.temp_one(), 2050);
    assert_eq!(sd.humidity_two(), 4100);
    assert_eq!(sd.heater_status(), RelayStatus::On);
    assert_eq!(sd.heater_turn_on_datetime(), 777);
    assert_eq!(sd.last_reading_datetime(), 900);
}

#[test]
fn recording_a_reading_increments_the_poll_count() {
    let mut sd = initialize_shared_data();
    record_sensor_reading(&mut sd, 2111, 5222, 2133, 5244, 1234);
    assert_eq!(sd.polling_iterations(), 1);
    assert_eq!(sd.temp_one(), 2111);
    assert_eq!(sd.humidity_one(), 5222);
    assert_eq!(sd.temp_two(), 2133);
    assert_eq!(sd.humidity_two(), 5244);
    assert_eq!(sd.last_reading_datetime(), 1234);
    // averages wait for the next tick
    assert_eq!(sd.average_temp(), 0);
    record_sensor_reading(&mut sd, 2111, 5222, 2133, 5244, 1294);
    assert_eq!(sd.polling_iterations(), 2);
}

#[test]
fn mock_relay_bank_records_commands() {
    let mut relays = MockRelayBank::new();
    assert_eq!(relays.get_mock_relay_status(17), RelayStatus::Off);
    relays.mock_change_relay_status(17, RelayStatus::On).unwrap();
    assert_eq!(relays.get_mock_relay_status(17), RelayStatus::On);
    assert_eq!(relays.get_mock_relay_status(18), RelayStatus::Off);
    relays.mock_change_relay_status(17, RelayStatus::Off).unwrap();
    assert_eq!(relays.get_mock_relay_status(17), RelayStatus::Off);
}

#[test]
fn transitions_pair_status_with_instant() {
    let mut sd = initialize_shared_data();
    apply_fridge_transition(&mut sd, RelayStatus::On, 5000);
    assert_eq!(sd.fridge_status(), RelayStatus::On);
    assert_eq!(sd.fridge_turn_on_datetime(), 5000);
    assert_eq!(sd.fridge_turn_off_datetime(), 0);
    apply_fridge_transition(&mut sd, RelayStatus::Off, 6400);
    assert_eq!(sd.fridge_status(), RelayStatus::Off);
    assert_eq!(sd.fridge_turn_off_datetime(), 6400);

    apply_humidifier_transition(&mut sd, RelayStatus::On, 7000);
    assert_eq!(sd.humidifier_status(), RelayStatus::On);
    assert_eq!(sd.humidifier_turn_on_datetime(), 7000);
}

// A pulse driven through begin and complete leaves a turn-off at least the
// configured duration after the turn-on.
#[test]
fn ventilator_pulse_bookkeeping() {
    let settings = settings_for_routes();
    let mut sd = initialize_shared_data();
    begin_ventilator_pulse(&mut sd, 10_000);
    assert_eq!(sd.ventilator_status(), RelayStatus::On);
    assert_eq!(sd.ventilator_turn_on_datetime(), 10_000);
    complete_ventilator_pulse(&mut sd, 10_060, &settings);
    assert_eq!(sd.ventilator_status(), RelayStatus::Off);
    assert_eq!(sd.ventilator_turn_off_datetime(), 10_060);
    assert!(
        sd.ventilator_turn_off_datetime()
            >= sd.ventilator_turn_on_datetime() + settings.ventilation.duration
    );
}

#[test]
fn snapshots_mirror_the_store() {
    let mut sd = initialize_shared_data();
    sd.set_average_temp(2222);
    sd.set_average_humidity(5555);
    sd.set_fridge_status(RelayStatus::On);
    sd.set_fridge_turn_on_datetime(400);
    sd.set_ventilator_turn_off_datetime(350);

    let avg = AvgAtmosphereData::of_store(&sd);
    assert_eq!(avg.temperature, 2222);
    assert_eq!(avg.humidity, 5555);

    let full = FullData::of_store(&sd);
    assert_eq!(full.temp_1, 1300);
    assert_eq!(full.average_temp, 2222);
    assert_eq!(full.fridge_status, RelayStatus::On);
    assert_eq!(full.fridge_turn_on_datetime, 400);

    let fridge = FridgeStatus::of_store(&sd);
    assert_eq!(fridge.fridge_status, RelayStatus::On);
    assert_eq!(fridge.last_fridge_turn_on, 400);
    assert_eq!(fridge.last_fridge_turn_off, 0);

    let humidifier = HumidifierStatus::of_store(&sd);
    assert_eq!(humidifier.humidifier_status, RelayStatus::Off);

    let dehumidifier = DehumidifierStatus::of_store(&sd);
    assert_eq!(dehumidifier.dehumidifier_status, RelayStatus::Off);

    let ventilator = VentilatorStatus::of_store(&sd);
    assert_eq!(ventilator.last_ventilator_turn_off, 350);

    let all = AllStatuses::of_store(&sd);
    assert_eq!(all.fridge_status, RelayStatus::On);
    assert_eq!(all.heater_status, RelayStatus::Off);
    assert_eq!(all.ventilator_status, RelayStatus::Off);
}

#[test]
fn history_limits_by_range_name() {
    assert_eq!(history_limit("Today"), 24);
    assert_eq!(history_limit("Week"), 168);
    assert_eq!(history_limit("Month"), 720);
    assert_eq!(history_limit("Yesterday"), 24);
    assert_eq!(history_limit(""), 24);
}

#[test]
fn index_color_classes() {
    assert_eq!(color_status(true), "on");
    assert_eq!(color_status(false), "off");
}

#[test]
fn manual_toggle_flips_and_reports() {
    assert_eq!(manual_toggle_target(RelayStatus::On), RelayStatus::Off);
    assert_eq!(manual_toggle_target(RelayStatus::Off), RelayStatus::On);
    assert_eq!(
        relay_change_message("Fridge", RelayStatus::On),
        "Fridge turned On"
    );
    assert_eq!(
        relay_change_message("Ventilator", RelayStatus::Off),
        "Ventilator turned Off"
    );
}

#[test]
fn relay_status_labels() {
    assert_eq!(RelayStatus::On.label(), "On");
    assert_eq!(RelayStatus::Off.label(), "Off");
}

// The civil clock read through the library lies in the engine's working
// range on any sane host, and two consecutive reads never go backwards by
// more than the test's own runtime.
#[test]
fn clock_reads_lie_in_working_range() {
    let first = current_control_time().expect("the host clock lies outside the working range");
    assert!(first > 1_500_000_000, "the host clock reads before 2017");
    let second = current_control_time().expect("the host clock lies outside the working range");
    assert!(second >= first);
}
