use monitoring_system::automation_module::{
    RelayConfiguration, RelayOutput, RelayStateController, RelayStateDependence,
    MEASUREMENT_TYPE_HUMIDITY, MEASUREMENT_TYPE_NONE_ALWAYS_OFF, MEASUREMENT_TYPE_NONE_ALWAYS_ON,
    MEASUREMENT_TYPE_VOLTAGE,
};
use monitoring_system::http_backend::{
    active_sensors, dependence_from_configuration, initial_relay_screens, measurement_type_for,
    status_snapshot, RelayStateScreen, RELAY_MODE_ALWAYS_OFF, RELAY_MODE_ALWAYS_ON, RELAY_MODE_AUTO,
};
use monitoring_system::monitoring_module::{SensorPacket, SensorValue};

fn conf(mode: u8, auto_dependence: u8) -> RelayConfiguration {
    RelayConfiguration {
        sensor_id: 1,
        relay_id: 1,
        mode,
        auto_dependence,
        min_value: 0.0f32.to_bits(),
        max_value: 1.0f32.to_bits(),
    }
}

#[test]
fn measurement_type_follows_mode() {
    assert_eq!(measurement_type_for(MEASUREMENT_TYPE_HUMIDITY, RELAY_MODE_AUTO), MEASUREMENT_TYPE_HUMIDITY);
    assert_eq!(measurement_type_for(MEASUREMENT_TYPE_HUMIDITY, RELAY_MODE_ALWAYS_ON), MEASUREMENT_TYPE_NONE_ALWAYS_ON);
    assert_eq!(measurement_type_for(MEASUREMENT_TYPE_VOLTAGE, RELAY_MODE_ALWAYS_OFF), MEASUREMENT_TYPE_NONE_ALWAYS_OFF);
    assert_eq!(measurement_type_for(MEASUREMENT_TYPE_VOLTAGE, 7), MEASUREMENT_TYPE_VOLTAGE);
}

#[test]
fn configuration_sets_dependence() {
    let c = conf(RELAY_MODE_AUTO, MEASUREMENT_TYPE_HUMIDITY);
    assert_eq!(
        dependence_from_configuration(&c),
        RelayStateDependence { sensor_id: 1, measurement_type: MEASUREMENT_TYPE_HUMIDITY, range: (0, 1.0f32.to_bits()) }
    );
    let on = dependence_from_configuration(&conf(RELAY_MODE_ALWAYS_ON, MEASUREMENT_TYPE_HUMIDITY));
    assert_eq!(on.measurement_type, MEASUREMENT_TYPE_NONE_ALWAYS_ON);
}

#[test]
fn forced_modes_ignore_readings() {
    for h in [-5.0f32, 0.5, 50.0, f32::NAN] {
        let v = SensorValue::humidity(h.to_bits());
        let on = dependence_from_configuration(&conf(RELAY_MODE_ALWAYS_ON, MEASUREMENT_TYPE_HUMIDITY));
        let off = dependence_from_configuration(&conf(RELAY_MODE_ALWAYS_OFF, MEASUREMENT_TYPE_HUMIDITY));
        assert_eq!(RelayStateController::check_criteria(&on, &v), RelayOutput::ON);
        assert_eq!(RelayStateController::check_criteria(&off, &v), RelayOutput::OFF);
    }
}

#[test]
fn stored_configuration_drives_poll() {
    let mut c = RelayStateController::new(&[1, 2, 3, 4, 5, 6, 7, 8]).unwrap();
    let mut sensors = vec![(SensorPacket::default(), 0u64); 3];
    sensors[1].0 = SensorPacket { sensor_id: 1, sensor_data: SensorValue::humidity(0.5f32.to_bits()), timestamp: 1 };
    let cf = conf(RELAY_MODE_AUTO, MEASUREMENT_TYPE_HUMIDITY);
    c.update_criteria(cf.relay_id, &dependence_from_configuration(&cf));
    assert_eq!(c.poll(&sensors, 10)[1], RelayOutput::ON);
    let cf = conf(RELAY_MODE_ALWAYS_OFF, MEASUREMENT_TYPE_HUMIDITY);
    c.update_criteria(cf.relay_id, &dependence_from_configuration(&cf));
    assert_eq!(c.poll(&sensors, 11)[1], RelayOutput::OFF);
}

#[test]
fn active_sensors_lists_occupied_slots_in_order() {
    let p = |id: u8| SensorPacket { sensor_id: id, sensor_data: SensorValue::default(), timestamp: id as u64 };
    let sensors = vec![(p(0), 1), (p(3), 2), (p(0), 3), (p(1), 4), (p(2), 5)];
    assert_eq!(active_sensors(&sensors), vec![p(3), p(1), p(2)]);
    assert_eq!(active_sensors(&vec![]), Vec::<SensorPacket>::new());
    assert_eq!(active_sensors(&vec![(p(0), 0); 4]), Vec::<SensorPacket>::new());
}

#[test]
fn status_screens() {
    let s = initial_relay_screens();
    for i in 0..6 {
        assert_eq!(s[i], RelayStateScreen(i as u8 + 1, RELAY_MODE_ALWAYS_OFF, false));
    }
    assert_eq!(status_snapshot(&s), s.to_vec());
    assert_eq!(RelayStateScreen::default(), RelayStateScreen(0, 0, false));
}
