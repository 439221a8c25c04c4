//! What the monitoring node's web interface computes: the list of live
//! sensors, the relay dependence that a posted configuration sets, and the
//! relay status screen.
use vstd::prelude::*;
use crate::automation_module::{
    ControllerModel, RelayConfiguration, RelayOutput, RelayStateDependence, criteria_output,
    in_range_output, poll_output, MEASUREMENT_TYPE_HUMIDITY, MEASUREMENT_TYPE_NONE_ALWAYS_OFF,
    MEASUREMENT_TYPE_NONE_ALWAYS_ON, MEASUREMENT_TYPE_TEMPERATURE, MEASUREMENT_TYPE_VOLTAGE,
};
use crate::monitoring_module::{SensorPacket, SensorValue};

verus! {

/// The relay follows its sensor.
pub const RELAY_MODE_AUTO: u8 = 0;

/// The relay is always on.
pub const RELAY_MODE_ALWAYS_ON: u8 = 1;

/// The relay is always off.
pub const RELAY_MODE_ALWAYS_OFF: u8 = 2;

/// The packets of the occupied slots of a cache, in slot order.
pub open spec fn active_packets(sensors: Seq<(SensorPacket, u64)>) -> Seq<SensorPacket>
    decreases sensors.len(),
{
    if sensors.len() == 0 {
        Seq::empty()
    } else {
        let rest = active_packets(sensors.drop_last());
        if sensors.last().0.sensor_id != 0 { rest.push(sensors.last().0) } else { rest }
    }
}

/// The packets of the occupied slots of `sensors`, in slot order: what the
/// node answers on `/get_sensors`.
pub fn active_sensors(sensors: &Vec<(SensorPacket, u64)>) -> (r: Vec<SensorPacket>)
    ensures
        r@ == active_packets(sensors@),
        r@ == sensors@.map_values(|e: (SensorPacket, u64)| e.0).filter(|p: SensorPacket| p.sensor_id != 0),
{
    let mut filtered: Vec<SensorPacket> = Vec::new();
    let mut i: usize = 0;
    while i < sensors.len()
        invariant
            i <= sensors@.len(),
            filtered@ == active_packets(sensors@.take(i as int)),
        decreases sensors@.len() - i,
    {
        let entry = sensors[i];
        assert(sensors@.take(i as int + 1).drop_last() =~= sensors@.take(i as int));
        if entry.0.sensor_id != 0 {
            filtered.push(entry.0);
        }
        i = i + 1;
    }
    assert(sensors@.take(i as int) =~= sensors@);
    proof {
        lemma_active_packets_is_filter(sensors@);
    }
    filtered
}

/// The measurement type that a relay in `mode` gets: the fixed types for
/// the always-on and always-off modes, else the one it follows.
pub open spec fn spec_measurement_type_for(auto_dependence: u8, mode: u8) -> u8 {
    if mode == RELAY_MODE_ALWAYS_ON {
        MEASUREMENT_TYPE_NONE_ALWAYS_ON
    } else if mode == RELAY_MODE_ALWAYS_OFF {
        MEASUREMENT_TYPE_NONE_ALWAYS_OFF
    } else {
        auto_dependence
    }
}

/// The measurement type that a relay in `mode` gets (see `spec_measurement_type_for`).
pub fn measurement_type_for(auto_dependence: u8, mode: u8) -> (r: u8)
    ensures
        r == spec_measurement_type_for(auto_dependence, mode),
        mode == 1 ==> r == 8,
        mode == 2 ==> r == 16,
        mode != 1 && mode != 2 ==> r == auto_dependence,
{
    match (auto_dependence, mode) {
        (_, RELAY_MODE_ALWAYS_ON) => MEASUREMENT_TYPE_NONE_ALWAYS_ON,
        (_, RELAY_MODE_ALWAYS_OFF) => MEASUREMENT_TYPE_NONE_ALWAYS_OFF,
        (sensing_type, _) => sensing_type,
    }
}

/// The dependence that a posted configuration gives its relay.
pub open spec fn configured_dependence(conf: RelayConfiguration) -> RelayStateDependence {
    RelayStateDependence {
        sensor_id: conf.sensor_id,
        measurement_type: spec_measurement_type_for(conf.auto_dependence, conf.mode),
        range: (conf.min_value, conf.max_value),
    }
}

/// The dependence that a posted configuration gives its relay (see `configured_dependence`).
pub fn dependence_from_configuration(conf: &RelayConfiguration) -> (r: RelayStateDependence)
    ensures
        r == configured_dependence(*conf),
        r.sensor_id == conf.sensor_id,
        r.range == (conf.min_value, conf.max_value),
        conf.mode == 1 ==> r.measurement_type == 8,
        conf.mode == 2 ==> r.measurement_type == 16,
        conf.mode != 1 && conf.mode != 2 ==> r.measurement_type == conf.auto_dependence,
{
    RelayStateDependence {
        measurement_type: measurement_type_for(conf.auto_dependence, conf.mode),
        sensor_id: conf.sensor_id,
        range: (conf.min_value, conf.max_value),
    }
}

/// One line of the relay status screen: relay number, mode, and whether it is on.
#[derive(Debug, Clone, Copy, PartialEq, Eq)]
pub struct RelayStateScreen(pub u8, pub u8, pub bool);

impl Default for RelayStateScreen {
    fn default() -> (r: Self)
        ensures
            r == RelayStateScreen(0, 0, false),
    {
        RelayStateScreen(0, 0, false)
    }
}

/// The status screen at start-up: relays 1 to 6, each always off and off.
pub fn initial_relay_screens() -> (r: [RelayStateScreen; 6])
    ensures
        forall|i: int| 0 <= i < 6 ==> #[trigger] r@[i] == RelayStateScreen((i + 1) as u8, RELAY_MODE_ALWAYS_OFF, false),
{
    [
        RelayStateScreen(1, RELAY_MODE_ALWAYS_OFF, false),
        RelayStateScreen(2, RELAY_MODE_ALWAYS_OFF, false),
        RelayStateScreen(3, RELAY_MODE_ALWAYS_OFF, false),
        RelayStateScreen(4, RELAY_MODE_ALWAYS_OFF, false),
        RelayStateScreen(5, RELAY_MODE_ALWAYS_OFF, false),
        RelayStateScreen(6, RELAY_MODE_ALWAYS_OFF, false),
    ]
}

/// The status screen as a list: what the node answers on `/get_status`.
pub fn status_snapshot(screens: &[RelayStateScreen; 6]) -> (r: Vec<RelayStateScreen>)
    ensures
        r@ == screens@,
{
    let mut my_stats: Vec<RelayStateScreen> = Vec::new();
    let mut i: usize = 0;
    while i < 6
        invariant
            i <= 6,
            my_stats@ == screens@.take(i as int),
        decreases 6 - i,
    {
        my_stats.push(screens[i]);
        i = i + 1;
        assert(my_stats@ =~= screens@.take(i as int));
    }
    assert(screens@.take(6) =~= screens@);
    my_stats
}

/// `/get_sensors` lists only occupied slots, and no more packets than there are slots.
pub proof fn lemma_active_packets_are_occupied(sensors: Seq<(SensorPacket, u64)>)
    ensures
        active_packets(sensors).len() <= sensors.len(),
        forall|i: int| 0 <= i < active_packets(sensors).len() ==> #[trigger] active_packets(sensors)[i].sensor_id != 0,
    decreases sensors.len(),
{
    if sensors.len() > 0 {
        lemma_active_packets_are_occupied(sensors.drop_last());
    }
}

/// A relay configured always on is on, and one configured always off is
/// off, whatever its sensor reads; an automatic relay follows the quantity
/// it is configured to follow over the interval it is given.
pub proof fn lemma_configured_relay_behaviour(conf: RelayConfiguration, value: SensorValue)
    ensures
        conf.mode == RELAY_MODE_ALWAYS_ON ==> criteria_output(configured_dependence(conf), value) == RelayOutput::ON,
        conf.mode == RELAY_MODE_ALWAYS_OFF ==> criteria_output(configured_dependence(conf), value) == RelayOutput::OFF,
        conf.mode != RELAY_MODE_ALWAYS_ON && conf.mode != RELAY_MODE_ALWAYS_OFF
            && conf.auto_dependence == MEASUREMENT_TYPE_HUMIDITY
            ==> criteria_output(configured_dependence(conf), value) == in_range_output((conf.min_value, conf.max_value), value.himidity),
        conf.mode != RELAY_MODE_ALWAYS_ON && conf.mode != RELAY_MODE_ALWAYS_OFF
            && conf.auto_dependence == MEASUREMENT_TYPE_TEMPERATURE
            ==> criteria_output(configured_dependence(conf), value) == in_range_output((conf.min_value, conf.max_value), value.temperature),
        conf.mode != RELAY_MODE_ALWAYS_ON && conf.mode != RELAY_MODE_ALWAYS_OFF
            && conf.auto_dependence == MEASUREMENT_TYPE_VOLTAGE
            ==> criteria_output(configured_dependence(conf), value) == in_range_output((conf.min_value, conf.max_value), value.voltage),
{
}

/// Once a configuration has been stored for its relay, a polling pass
/// switches that relay as the configuration says: always-on relays on and
/// always-off relays off, provided the configuration names a sensor.
pub proof fn lemma_stored_configuration_drives_poll(
    m: ControllerModel,
    conf: RelayConfiguration,
    sensors: Seq<(SensorPacket, u64)>,
)
    requires
        (conf.relay_id as int) < m.criteria.len(),
        m.criteria[conf.relay_id as int] == configured_dependence(conf),
        conf.sensor_id != 0,
        (conf.sensor_id as int) < sensors.len(),
    ensures
        conf.mode == RELAY_MODE_ALWAYS_ON ==> poll_output(m, sensors, conf.relay_id as int) == RelayOutput::ON,
        conf.mode == RELAY_MODE_ALWAYS_OFF ==> poll_output(m, sensors, conf.relay_id as int) == RelayOutput::OFF,
        poll_output(m, sensors, conf.relay_id as int)
            == criteria_output(configured_dependence(conf), sensors[conf.sensor_id as int].0.sensor_data),
{
}

/// `/get_sensors` lists exactly the packets of the occupied slots, each as
/// it is cached, in slot order: the cached packets filtered on a non-zero id.
pub proof fn lemma_active_packets_is_filter(sensors: Seq<(SensorPacket, u64)>)
    ensures
        active_packets(sensors)
            == sensors.map_values(|e: (SensorPacket, u64)| e.0).filter(|p: SensorPacket| p.sensor_id != 0),
    decreases sensors.len(),
{
    reveal_with_fuel(Seq::<_>::filter, 1);
    let packets = sensors.map_values(|e: (SensorPacket, u64)| e.0);
    if sensors.len() > 0 {
        lemma_active_packets_is_filter(sensors.drop_last());
        assert(packets.drop_last() =~= sensors.drop_last().map_values(|e: (SensorPacket, u64)| e.0));
    } else {
        assert(packets =~= Seq::<SensorPacket>::empty());
    }
}

/// Every listed packet is, unchanged, the packet of some occupied slot.
pub proof fn lemma_listed_packets_are_cached(sensors: Seq<(SensorPacket, u64)>, k: int)
    requires
        0 <= k < active_packets(sensors).len(),
    ensures
        exists|i: int| 0 <= i < sensors.len() && #[trigger] sensors[i].0 == active_packets(sensors)[k]
            && sensors[i].0.sensor_id != 0,
    decreases sensors.len(),
{
    let rest = active_packets(sensors.drop_last());
    if k < rest.len() {
        lemma_listed_packets_are_cached(sensors.drop_last(), k);
        let i = choose|i: int| 0 <= i < sensors.drop_last().len() && #[trigger] sensors.drop_last()[i].0 == rest[k]
            && sensors.drop_last()[i].0.sensor_id != 0;
        assert(sensors[i].0 == active_packets(sensors)[k]);
    } else {
        let i = sensors.len() - 1;
        assert(sensors[i].0 == active_packets(sensors)[k]);
    }
}

} // verus!
