use monitoring_system::automation_module::{
    relay_level, RelayConfiguration, RelayOutput, RelayStateController, RelayStateDependence,
    MEASUREMENT_TYPE_HUMIDITY, MEASUREMENT_TYPE_NONE_ALWAYS_OFF, MEASUREMENT_TYPE_NONE_ALWAYS_ON,
    MEASUREMENT_TYPE_TEMPERATURE, MEASUREMENT_TYPE_VOLTAGE,
};
use monitoring_system::monitoring_module::{SensorPacket, SensorValue};

fn w(x: f32) -> u32 {
    x.to_bits()
}

fn dep(sensor_id: u8, measurement_type: u8, lo: f32, hi: f32) -> RelayStateDependence {
    RelayStateDependence { sensor_id, measurement_type, range: (w(lo), w(hi)) }
}

#[test]
fn validate_rejects_missing_sensor_and_unknown_types() {
    assert!(!dep(0, MEASUREMENT_TYPE_HUMIDITY, 30.0, 50.0).validate());
    assert!(!dep(1, 17, 30.0, 50.0).validate());
    assert!(!dep(1, 3, 30.0, 50.0).validate());
    assert!(!dep(1, 0, 30.0, 50.0).validate());
    assert!(!RelayStateDependence::default().validate());
}

#[test]
fn validate_checks_range_against_quantity_span() {
    assert!(dep(1, MEASUREMENT_TYPE_HUMIDITY, 30.0, 50.0).validate());
    assert!(!dep(1, MEASUREMENT_TYPE_HUMIDITY, 100.0, 150.0).validate());
    assert!(!dep(1, MEASUREMENT_TYPE_HUMIDITY, -10.0, 0.0).validate());
    assert!(dep(1, MEASUREMENT_TYPE_TEMPERATURE, -50.0, -39.0).validate());
    assert!(!dep(1, MEASUREMENT_TYPE_TEMPERATURE, -50.0, -40.0).validate());
    assert!(!dep(1, MEASUREMENT_TYPE_TEMPERATURE, 125.0, 130.0).validate());
    assert!(dep(1, MEASUREMENT_TYPE_VOLTAGE, 4.9, 10.0).validate());
    assert!(!dep(1, MEASUREMENT_TYPE_VOLTAGE, 5.0, 10.0).validate());
    assert!(!dep(1, MEASUREMENT_TYPE_VOLTAGE, 1.0, f32::NAN).validate());
    assert!(dep(1, MEASUREMENT_TYPE_NONE_ALWAYS_ON, f32::NAN, f32::NAN).validate());
    assert!(dep(1, MEASUREMENT_TYPE_NONE_ALWAYS_OFF, 0.0, 0.0).validate());
}

#[test]
fn check_criteria_follows_the_selected_quantity() {
    let v = SensorValue { sensor_type: 7, himidity: w(40.0), temperature: w(20.0), voltage: w(3.3) };
    let on = RelayOutput::ON;
    let off = RelayOutput::OFF;
    assert_eq!(RelayStateController::check_criteria(&dep(1, MEASUREMENT_TYPE_HUMIDITY, 30.0, 50.0), &v), on);
    assert_eq!(RelayStateController::check_criteria(&dep(1, MEASUREMENT_TYPE_HUMIDITY, 40.0, 50.0), &v), off);
    assert_eq!(RelayStateController::check_criteria(&dep(1, MEASUREMENT_TYPE_HUMIDITY, 30.0, 40.0), &v), off);
    assert_eq!(RelayStateController::check_criteria(&dep(1, MEASUREMENT_TYPE_TEMPERATURE, 15.0, 25.0), &v), on);
    assert_eq!(RelayStateController::check_criteria(&dep(1, MEASUREMENT_TYPE_TEMPERATURE, 25.0, 35.0), &v), off);
    assert_eq!(RelayStateController::check_criteria(&dep(1, MEASUREMENT_TYPE_VOLTAGE, 3.0, 3.5), &v), on);
    assert_eq!(RelayStateController::check_criteria(&dep(1, MEASUREMENT_TYPE_VOLTAGE, 3.4, 3.5), &v), off);
    assert_eq!(RelayStateController::check_criteria(&dep(1, MEASUREMENT_TYPE_NONE_ALWAYS_ON, 0.0, 0.0), &v), on);
    assert_eq!(RelayStateController::check_criteria(&dep(1, MEASUREMENT_TYPE_NONE_ALWAYS_OFF, 0.0, 100.0), &v), off);
    assert_eq!(RelayStateController::check_criteria(&dep(1, 3, 0.0, 100.0), &v), RelayOutput::NoChange);
    assert_eq!(RelayStateController::check_criteria(&dep(1, 0, 0.0, 100.0), &v), RelayOutput::NoChange);
}

#[test]
fn validated_dependence_always_decides() {
    let v = SensorValue::humidity(w(99.0));
    for t in [1u8, 2, 4, 8, 16] {
        let d = dep(2, t, -1000.0, 1000.0);
        assert!(d.validate());
        assert_ne!(RelayStateController::check_criteria(&d, &v), RelayOutput::NoChange);
    }
}

#[test]
fn relays_are_active_low() {
    assert_eq!(relay_level(RelayOutput::ON), Some(false));
    assert_eq!(relay_level(RelayOutput::OFF), Some(true));
    assert_eq!(relay_level(RelayOutput::NoChange), None);
}

#[test]
fn gpio_config_masks_the_pin() {
    let c = RelayStateController::gpio_config(13, true);
    assert_eq!(c.pin_bit_mask, 1u64 << 13);
    assert!(c.output && c.pull_down && !c.pull_up && !c.interrupts);
    let c = RelayStateController::gpio_config(0, false);
    assert_eq!(c.pin_bit_mask, 1);
    assert!(!c.output);
    assert_eq!(RelayStateController::gpio_config(63, true).pin_bit_mask, 1u64 << 63);
}

#[test]
fn new_controller_depends_on_nothing() {
    let pins = [0u8, 13, 12, 14, 26, 25, 27, 0];
    let c = RelayStateController::new(&pins).unwrap();
    assert_eq!(c.pins(), pins);
    for d in c.get_relays_criteria_instance() {
        assert_eq!(d, RelayStateDependence::default());
    }
    for (p, n, t) in c.get_status_instance() {
        assert_eq!(p, SensorPacket::default());
        assert_eq!((n, t), (0, 0));
    }
}

#[test]
fn update_criteria_replaces_one_relay() {
    let mut c = RelayStateController::new(&[20, 21, 22, 23, 24, 25, 26, 27]).unwrap();
    let d = dep(1, MEASUREMENT_TYPE_HUMIDITY, 30.0, 50.0);
    c.update_criteria(5, &d);
    let all = c.get_relays_criteria_instance();
    for i in 0..8 {
        if i == 5 {
            assert_eq!(all[i], d);
        } else {
            assert_eq!(all[i], RelayStateDependence::default());
        }
    }
}

#[test]
fn poll_switches_assigned_relays_and_records_them() {
    let mut c = RelayStateController::new(&[20, 21, 22, 23, 24, 25, 26, 27]).unwrap();
    let mut sensors = vec![(SensorPacket::default(), 0u64); 9];
    let humid = SensorPacket { sensor_id: 1, sensor_data: SensorValue::humidity(w(30.2)), timestamp: 77 };
    sensors[1].0 = humid;
    c.update_criteria(0, &dep(1, MEASUREMENT_TYPE_HUMIDITY, 30.0, 50.0));
    c.update_criteria(1, &dep(1, MEASUREMENT_TYPE_HUMIDITY, 50.0, 60.0));
    c.update_criteria(2, &dep(3, MEASUREMENT_TYPE_NONE_ALWAYS_ON, 0.0, 0.0));
    c.update_criteria(3, &dep(4, 9, 0.0, 0.0));
    let out = c.poll(&sensors, 1234);
    assert_eq!(out[0], RelayOutput::ON);
    assert_eq!(out[1], RelayOutput::OFF);
    assert_eq!(out[2], RelayOutput::ON);
    assert_eq!(out[3], RelayOutput::NoChange);
    for i in 4..8 {
        assert_eq!(out[i], RelayOutput::NoChange);
    }
    let status = c.get_status_instance();
    assert_eq!(status[0], (humid, 0, 1234));
    assert_eq!(status[1], (humid, 0, 1234));
    assert_eq!(status[2], (SensorPacket::default(), 0, 1234));
    assert_eq!(status[3], (SensorPacket::default(), 0, 0));
    assert_eq!(status[7], (SensorPacket::default(), 0, 0));
    let again = c.poll(&sensors, 2000);
    assert_eq!(again, out);
    assert_eq!(c.get_status_instance()[0], (humid, 0, 2000));
}

#[test]
fn default_configuration_is_zero() {
    let c = RelayConfiguration::default();
    assert_eq!((c.sensor_id, c.relay_id, c.mode, c.auto_dependence), (0, 0, 0, 0));
    assert_eq!((c.min_value, c.max_value), (0, 0));
}

#[test]
fn empty_range_never_switches_on() {
    let v = SensorValue { sensor_type: 7, himidity: w(40.0), temperature: w(40.0), voltage: w(40.0) };
    for t in [MEASUREMENT_TYPE_HUMIDITY, MEASUREMENT_TYPE_TEMPERATURE, MEASUREMENT_TYPE_VOLTAGE] {
        assert_eq!(RelayStateController::check_criteria(&dep(1, t, 50.0, 30.0), &v), RelayOutput::OFF);
        assert_eq!(RelayStateController::check_criteria(&dep(1, t, 40.0, 40.0), &v), RelayOutput::OFF);
    }
}

#[test]
fn covers_criteria_checks_sensor_slots() {
    let mut c = RelayStateController::new(&[1, 2, 3, 4, 5, 6, 7, 8]).unwrap();
    let sensors = vec![(SensorPacket::default(), 0u64); 3];
    assert!(c.covers_criteria(&sensors));
    c.update_criteria(4, &dep(2, MEASUREMENT_TYPE_HUMIDITY, 0.0, 1.0));
    assert!(c.covers_criteria(&sensors));
    c.update_criteria(6, &dep(3, MEASUREMENT_TYPE_HUMIDITY, 0.0, 1.0));
    assert!(!c.covers_criteria(&sensors));
}
