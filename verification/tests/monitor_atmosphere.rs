use atmos::config::HumiditySettings;
use atmos::config::PollingIntervalSettings;
use atmos::config::RelayPinSettings;
use atmos::config::SensorReadCooldownSettings;
use atmos::config::Settings;
use atmos::config::SqliteSettings;
use atmos::config::TemperatureSettings;
use atmos::config::VentilationSettings;
use atmos::config::WebserverSettings;
use atmos::initialization::initialize_shared_data;
use atmos::mock_relay_ctrl::MockRelayBank;
use atmos::monitor_atmosphere::control_tick;
use atmos::monitor_atmosphere::handle_dehumidifier;
use atmos::monitor_atmosphere::handle_fridge;
use atmos::monitor_atmosphere::handle_humidifier;
use atmos::monitor_atmosphere::handle_ventilator;
use atmos::monitor_atmosphere::update_atmosphere_quality_index;
use atmos::monitor_atmosphere::update_average_values;
use atmos::relay_ctrl::RelayStatus;
use atmos::shared_data::SharedData;

fn create_test_shared_data() -> SharedData {
    SharedData::new(
        0,
        1300,
        8000,
        1300,
        8000,
        0,
        8000,
        0,
        RelayStatus::Off,
        RelayStatus::Off,
        RelayStatus::Off,
        RelayStatus::Off,
        RelayStatus::Off,
        0,
        0,
        0,
        0,
        0,
        0,
        0,
        0,
        0,
        0,
        0,
    )
}

fn test_settings() -> Settings {
    Settings {
        temperature: TemperatureSettings {
            low_range_start: 1500,
            low_range_end: 2000,
            high_range_start: 2500,
            high_range_end: 3000,
            ideal_range_start: 2000,
            ideal_range_end: 2500,
            fridge_cooldown_duration: 0,
        },
        humidity: HumiditySettings {
            low_range_start: 0,
            low_range_end: 4000,
            high_range_start: 6000,
            high_range_end: 10000,
            ideal_range_start: 4000,
            ideal_range_end: 6000,
            humidifier_cooldown_duration: 0,
            humidifier_activation_duration: 1,
            dehumidifier_cooldown_duration: 0,
        },
        ventilation: VentilationSettings { interval: 0, duration: 1 },
        relay_pins: RelayPinSettings {
            humidifier: 3,
            dehumidifier: 2,
            ventilator_or_heater: 4,
            fridge: 1,
        },
        webserver: WebserverSettings {
            host: String::from("127.0.0.1"),
            port: 8080,
        },
        sensor_read_cooldown: SensorReadCooldownSettings { duration: 60 },
        polling_interval: PollingIntervalSettings { duration: 60 },
        sqlite: SqliteSettings {
            db_name: String::from("atmosphere.db"),
        },
    }
}

#[test]
fn test_handle_fridge() {
    let mut sd = create_test_shared_data();
    let mut relays = MockRelayBank::new();
    let mut settings = test_settings();
    settings.temperature.high_range_start = 2500;
    settings.temperature.high_range_end = 3000;
    settings.temperature.ideal_range_start = 2000;
    settings.temperature.ideal_range_end = 2500;
    settings.temperature.low_range_start = 1500;
    settings.temperature.low_range_end = 2000;
    settings.relay_pins.fridge = 1;

    // Temperature in the high range: the fridge is driven on.
    sd.set_average_temp(2600);
    handle_fridge(&mut sd, &mut relays, 1_000_000, &settings).unwrap();
    assert_eq!(
        relays.get_mock_relay_status(settings.relay_pins.fridge),
        RelayStatus::On
    );

    // Temperature back in the ideal range: the fridge is driven off.
    sd.set_average_temp(2200);
    handle_fridge(&mut sd, &mut relays, 1_000_100, &settings).unwrap();
    assert_eq!(
        relays.get_mock_relay_status(settings.relay_pins.fridge),
        RelayStatus::Off
    );
}

#[test]
fn test_handle_dehumidifier() {
    let mut sd = create_test_shared_data();
    let mut relays = MockRelayBank::new();
    let mut settings = test_settings();
    settings.humidity.high_range_start = 6000;
    settings.humidity.high_range_end = 10000;
    settings.relay_pins.dehumidifier = 2;

    // Humidity in the high range: the dehumidifier is driven on.
    sd.set_average_humidity(7000);
    handle_dehumidifier(&mut sd, &mut relays, 1_000_000, &settings).unwrap();
    assert_eq!(
        relays.get_mock_relay_status(settings.relay_pins.dehumidifier),
        RelayStatus::On
    );

    // Humidity out of the high range: the dehumidifier is driven off.
    sd.set_average_humidity(5000);
    handle_dehumidifier(&mut sd, &mut relays, 1_000_100, &settings).unwrap();
    assert_eq!(
        relays.get_mock_relay_status(settings.relay_pins.dehumidifier),
        RelayStatus::Off
    );
}

#[test]
fn test_handle_humidifier() {
    let mut sd = create_test_shared_data();
    let mut relays = MockRelayBank::new();
    let mut settings = test_settings();
    settings.humidity.low_range_start = 0;
    settings.humidity.low_range_end = 4000;
    settings.humidity.humidifier_cooldown_duration = 0;
    settings.humidity.humidifier_activation_duration = 1;
    settings.relay_pins.humidifier = 3;

    // Humidity in the low range: the pulse runs and ends with the relay off.
    sd.set_average_humidity(3000);
    handle_humidifier(&mut sd, &mut relays, 1_000_000, &settings).unwrap();
    assert_eq!(
        relays.get_mock_relay_status(settings.relay_pins.humidifier),
        RelayStatus::Off
    );

    // Humidity out of the low range: nothing moves.
    sd.set_average_humidity(5000);
    handle_humidifier(&mut sd, &mut relays, 1_000_100, &settings).unwrap();
    assert_eq!(
        relays.get_mock_relay_status(settings.relay_pins.humidifier),
        RelayStatus::Off
    );
}

#[test]
fn test_update_average_values() {
    let mut sd = create_test_shared_data();
    sd.set_temp_one(2000);
    sd.set_temp_two(2200);
    sd.set_humidity_one(5000);
    sd.set_humidity_two(5200);

    update_average_values(&mut sd);

    assert_eq!(sd.average_temp(), 2100);
    assert_eq!(sd.average_humidity(), 5100);
}

#[test]
fn test_update_atmosphere_quality_index() {
    let mut sd = create_test_shared_data();
    let mut settings = test_settings();
    settings.temperature.ideal_range_start = 2000;
    settings.temperature.ideal_range_end = 2500;
    settings.humidity.ideal_range_start = 4000;
    settings.humidity.ideal_range_end = 6000;

    // Both averages in their ideal ranges.
    sd.set_average_temp(2200);
    sd.set_average_humidity(5000);
    update_atmosphere_quality_index(&mut sd, &settings);
    assert_eq!(sd.atmosphere_quality_index(), 100);

    // Temperature out of the ideal range.
    sd.set_average_temp(2600);
    update_atmosphere_quality_index(&mut sd, &settings);
    assert_eq!(sd.atmosphere_quality_index(), 0);
}

#[test]
fn test_handle_ventilator() {
    let mut sd = create_test_shared_data();
    let mut relays = MockRelayBank::new();
    let mut settings = test_settings();
    settings.ventilation.interval = 0;
    settings.ventilation.duration = 1;
    settings.relay_pins.ventilator_or_heater = 4;

    // The rest interval has elapsed: a full pulse runs.
    handle_ventilator(&mut sd, &mut relays, 1_000_000, &settings).unwrap();
    assert_eq!(
        relays.get_mock_relay_status(settings.relay_pins.ventilator_or_heater),
        RelayStatus::Off
    );
    assert_eq!(sd.ventilator_status(), RelayStatus::Off);

    // Already on: no action.
    sd.set_ventilator_status(RelayStatus::On);
    handle_ventilator(&mut sd, &mut relays, 1_000_100, &settings).unwrap();
    assert_eq!(sd.ventilator_status(), RelayStatus::On);
}

// The cooldown scenario: ideal temperature band 20.00..25.00, high band
// 25.00..30.00, cooldown 1200 s, fridge off since the epoch, average
// temperature 26.00. A tick before 1200 s have elapsed leaves the fridge
// off; one at 1200 s turns it on and records the new turn-on instant.
#[test]
fn fridge_waits_out_cooldown_then_activates() {
    let mut settings = test_settings();
    settings.temperature.fridge_cooldown_duration = 1200;
    let mut relays = MockRelayBank::new();

    let mut sd = create_test_shared_data();
    sd.set_average_temp(2600);
    handle_fridge(&mut sd, &mut relays, 1000, &settings).unwrap();
    assert_eq!(sd.fridge_status(), RelayStatus::Off);
    assert_eq!(relays.get_mock_relay_status(1), RelayStatus::Off);

    handle_fridge(&mut sd, &mut relays, 1200, &settings).unwrap();
    assert_eq!(sd.fridge_status(), RelayStatus::On);
    assert_eq!(sd.fridge_turn_on_datetime(), 1200);
    assert_eq!(relays.get_mock_relay_status(1), RelayStatus::On);
}

// The dehumidifier scenario: no cooldown, high band 60.00..100.00, average
// humidity falling 70.00 to 50.00 across two ticks. The status follows
// within a single tick each time, unconditionally.
#[test]
fn dehumidifier_follows_humidity_across_two_ticks() {
    let mut settings = test_settings();
    settings.ventilation.interval = 1_000_000;
    let mut relays = MockRelayBank::new();

    let mut sd = create_test_shared_data();
    sd.polling_iterations = 9;
    sd.set_temp_one(2200);
    sd.set_temp_two(2200);
    sd.set_humidity_one(7000);
    sd.set_humidity_two(7000);
    control_tick(&mut sd, &mut relays, 50, &settings).unwrap();
    assert_eq!(sd.dehumidifier_status(), RelayStatus::On);
    assert_eq!(relays.get_mock_relay_status(2), RelayStatus::On);

    sd.set_humidity_one(5000);
    sd.set_humidity_two(5000);
    control_tick(&mut sd, &mut relays, 51, &settings).unwrap();
    assert_eq!(sd.dehumidifier_status(), RelayStatus::Off);
    assert_eq!(sd.dehumidifier_turn_off_datetime(), 51);
    assert_eq!(relays.get_mock_relay_status(2), RelayStatus::Off);
}

// The ventilator scenario: rest interval 0 s, pulse duration 1 s, status
// off. One tick drives it on then off within the tick; a second immediate
// tick with the status forced on performs no action.
#[test]
fn ventilator_pulses_once_and_respects_forced_on() {
    let settings = test_settings();
    let mut relays = MockRelayBank::new();

    let mut sd = create_test_shared_data();
    handle_ventilator(&mut sd, &mut relays, 700, &settings).unwrap();
    assert_eq!(sd.ventilator_status(), RelayStatus::Off);
    assert_eq!(sd.ventilator_turn_on_datetime(), 700);
    assert_eq!(sd.ventilator_turn_off_datetime(), 701);
    assert_eq!(relays.get_mock_relay_status(4), RelayStatus::Off);

    sd.set_ventilator_status(RelayStatus::On);
    handle_ventilator(&mut sd, &mut relays, 702, &settings).unwrap();
    assert_eq!(sd.ventilator_status(), RelayStatus::On);
    assert_eq!(sd.ventilator_turn_on_datetime(), 700);
}

// During warm-up (at most four polls) a tick recomputes derived values but
// commands no relay and changes no device state, whatever the averages.
#[test]
fn warm_up_suppresses_all_control() {
    let settings = test_settings();
    let mut relays = MockRelayBank::new();

    let mut sd = create_test_shared_data();
    sd.polling_iterations = 4;
    sd.set_temp_one(2900);
    sd.set_temp_two(2900);
    sd.set_humidity_one(7000);
    sd.set_humidity_two(7000);
    control_tick(&mut sd, &mut relays, 5_000, &settings).unwrap();

    assert_eq!(sd.average_temp(), 2900);
    assert_eq!(sd.average_humidity(), 7000);
    assert_eq!(sd.fridge_status(), RelayStatus::Off);
    assert_eq!(sd.dehumidifier_status(), RelayStatus::Off);
    assert_eq!(sd.ventilator_status(), RelayStatus::Off);
    assert_eq!(sd.humidifier_status(), RelayStatus::Off);
    assert_eq!(sd.fridge_turn_on_datetime(), 0);
    for pin in 0..=255u8 {
        assert_eq!(relays.get_mock_relay_status(pin), RelayStatus::Off);
    }
}

// A tick past warm-up recomputes the averages from the raw readings and
// sets the quality index to 100 exactly when both averages are ideal.
#[test]
fn tick_recomputes_derived_values() {
    let settings = test_settings();
    let mut relays = MockRelayBank::new();

    let mut sd = create_test_shared_data();
    sd.polling_iterations = 9;
    sd.set_temp_one(2000);
    sd.set_temp_two(2300);
    sd.set_humidity_one(4800);
    sd.set_humidity_two(5100);
    control_tick(&mut sd, &mut relays, 60, &settings).unwrap();
    assert_eq!(sd.average_temp(), 2150);
    assert_eq!(sd.average_humidity(), 4950);
    assert_eq!(sd.atmosphere_quality_index(), 100);

    sd.set_temp_one(2600);
    sd.set_temp_two(2600);
    control_tick(&mut sd, &mut relays, 1_000_000, &settings).unwrap();
    assert_eq!(sd.average_temp(), 2600);
    assert_eq!(sd.atmosphere_quality_index(), 0);
}

// Negative readings average toward zero, as machine division of the
// scaled sum does.
#[test]
fn averages_round_toward_zero() {
    let mut sd = create_test_shared_data();
    sd.set_temp_one(-101);
    sd.set_temp_two(0);
    sd.set_humidity_one(101);
    sd.set_humidity_two(0);
    update_average_values(&mut sd);
    assert_eq!(sd.average_temp(), -50);
    assert_eq!(sd.average_humidity(), 50);
}
