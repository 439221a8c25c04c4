//! Relay automation: per-relay criteria over sensor readings, and the
//! controller that turns the latest readings into relay switching.
use vstd::prelude::*;
use vstd::arithmetic::power2::pow2;
use vstd::bits::{lemma_u64_pow2_no_overflow, lemma_u64_shl_is_mul};
use crate::reading::{lt, word_lt, FIVE, HUNDRED, HUNDRED_TWENTY_FIVE, MINUS_FORTY, ZERO};
use crate::monitoring_module::{SensorPacket, SensorValue, default_packet};

verus! {

/// The relay follows the humidity of its sensor.
pub const MEASUREMENT_TYPE_HUMIDITY: u8 = 1;

/// The relay follows the temperature of its sensor.
pub const MEASUREMENT_TYPE_TEMPERATURE: u8 = 2;

/// The relay follows the voltage of its sensor.
pub const MEASUREMENT_TYPE_VOLTAGE: u8 = 4;

/// The relay is on whatever its sensor reads.
pub const MEASUREMENT_TYPE_NONE_ALWAYS_ON: u8 = 8;

/// The relay is off whatever its sensor reads.
pub const MEASUREMENT_TYPE_NONE_ALWAYS_OFF: u8 = 16;

/// What a relay depends on: a sensor, the quantity of it that counts, and
/// the open interval `(range.0, range.1)` in which the relay is on. The
/// bounds are IEEE-754 single-precision words.
#[derive(Debug, Clone, Copy, PartialEq, Eq)]
pub struct RelayStateDependence {
    /// `0` means that the relay depends on no sensor and is left alone.
    pub sensor_id: u8,
    /// One of the `MEASUREMENT_TYPE_*` constants.
    pub measurement_type: u8,
    pub range: (u32, u32),
}

/// The dependence that `RelayStateDependence::default` gives: on no sensor.
pub open spec fn default_dependence() -> RelayStateDependence {
    RelayStateDependence { sensor_id: 0, measurement_type: 0, range: (0, 0) }
}

impl Default for RelayStateDependence {
    fn default() -> (r: Self)
        ensures
            r == default_dependence(),
    {
        RelayStateDependence { sensor_id: 0, measurement_type: 0, range: (0, 0) }
    }
}

/// Whether the interval `(lo, hi)` can hold a value of a sensor whose
/// readings lie in `(min, max)`: it starts below the maximum and ends above
/// the minimum.
pub open spec fn overlaps(lo: u32, hi: u32, min: u32, max: u32) -> bool {
    word_lt(lo, max) && word_lt(min, hi)
}

/// Whether a dependence names a sensor and a known measurement type, and, for
/// a measured quantity, an interval that meets the span of that quantity:
/// humidity `(0, 100)`, temperature `(-40, 125)`, voltage `(0, 5)`.
pub open spec fn is_valid_dependence(d: RelayStateDependence) -> bool {
    d.sensor_id != 0 && d.measurement_type <= 16 && {
        let (lo, hi) = d.range;
        if d.measurement_type == MEASUREMENT_TYPE_HUMIDITY {
            overlaps(lo, hi, ZERO, HUNDRED)
        } else if d.measurement_type == MEASUREMENT_TYPE_TEMPERATURE {
            overlaps(lo, hi, MINUS_FORTY, HUNDRED_TWENTY_FIVE)
        } else if d.measurement_type == MEASUREMENT_TYPE_VOLTAGE {
            overlaps(lo, hi, ZERO, FIVE)
        } else {
            d.measurement_type == MEASUREMENT_TYPE_NONE_ALWAYS_ON
                || d.measurement_type == MEASUREMENT_TYPE_NONE_ALWAYS_OFF
        }
    }
}

impl RelayStateDependence {
    /// Whether this dependence can be acted on (see `is_valid_dependence`).
    pub fn validate(&self) -> (r: bool)
        ensures
            r == is_valid_dependence(*self),
            self.sensor_id == 0 ==> !r,
            self.sensor_id != 0 && self.measurement_type == 1
                ==> (r <==> word_lt(self.range.0, 0x42C8_0000) && word_lt(0x0000_0000, self.range.1)),
            self.sensor_id != 0 && self.measurement_type == 2
                ==> (r <==> word_lt(self.range.0, 0x42FA_0000) && word_lt(0xC220_0000, self.range.1)),
            self.sensor_id != 0 && self.measurement_type == 4
                ==> (r <==> word_lt(self.range.0, 0x40A0_0000) && word_lt(0x0000_0000, self.range.1)),
            self.sensor_id != 0 && (self.measurement_type == 8 || self.measurement_type == 16) ==> r,
            !(self.measurement_type == 1 || self.measurement_type == 2 || self.measurement_type == 4
                || self.measurement_type == 8 || self.measurement_type == 16) ==> !r,
    {
        if self.sensor_id == 0 || self.measurement_type > 16 {
            return false;
        }
        match self.measurement_type {
            MEASUREMENT_TYPE_HUMIDITY => lt(self.range.0, HUNDRED) && lt(ZERO, self.range.1),
            MEASUREMENT_TYPE_TEMPERATURE => lt(self.range.0, HUNDRED_TWENTY_FIVE) && lt(MINUS_FORTY, self.range.1),
            MEASUREMENT_TYPE_VOLTAGE => lt(self.range.0, FIVE) && lt(ZERO, self.range.1),
            MEASUREMENT_TYPE_NONE_ALWAYS_ON => true,
            MEASUREMENT_TYPE_NONE_ALWAYS_OFF => true,
            _ => false,
        }
    }
}

/// A relay's configuration as the web page sends it.
#[derive(Debug, Clone, Copy, PartialEq, Eq)]
pub struct RelayConfiguration {
    pub sensor_id: u8,
    pub relay_id: u8,
    /// `0`: automatic, `1`: always on, `2`: always off.
    pub mode: u8,
    /// The measurement type that an automatic relay follows.
    pub auto_dependence: u8,
    /// Lower bound of the interval, an IEEE-754 single-precision word.
    pub min_value: u32,
    /// Upper bound of the interval, an IEEE-754 single-precision word.
    pub max_value: u32,
}

impl Default for RelayConfiguration {
    fn default() -> (r: Self)
        ensures
            r == (RelayConfiguration { sensor_id: 0, relay_id: 0, mode: 0, auto_dependence: 0, min_value: 0, max_value: 0 }),
    {
        RelayConfiguration { sensor_id: 0, relay_id: 0, mode: 0, auto_dependence: 0, min_value: 0, max_value: 0 }
    }
}

/// What a relay should do.
#[derive(Debug, Clone, Copy, PartialEq, Eq)]
pub enum RelayOutput {
    ON,
    OFF,
    NoChange,
}

/// `ON` when `value` lies strictly inside `(range.0, range.1)`, else `OFF`.
pub open spec fn in_range_output(range: (u32, u32), value: u32) -> RelayOutput {
    if word_lt(range.0, value) && word_lt(value, range.1) { RelayOutput::ON } else { RelayOutput::OFF }
}

/// What a relay with dependence `criteria` should do when its sensor reads `value`.
pub open spec fn criteria_output(criteria: RelayStateDependence, value: SensorValue) -> RelayOutput {
    if criteria.measurement_type == MEASUREMENT_TYPE_HUMIDITY {
        in_range_output(criteria.range, value.himidity)
    } else if criteria.measurement_type == MEASUREMENT_TYPE_TEMPERATURE {
        in_range_output(criteria.range, value.temperature)
    } else if criteria.measurement_type == MEASUREMENT_TYPE_VOLTAGE {
        in_range_output(criteria.range, value.voltage)
    } else if criteria.measurement_type == MEASUREMENT_TYPE_NONE_ALWAYS_ON {
        RelayOutput::ON
    } else if criteria.measurement_type == MEASUREMENT_TYPE_NONE_ALWAYS_OFF {
        RelayOutput::OFF
    } else {
        RelayOutput::NoChange
    }
}

/// The GPIO level that drives a relay to `output`. The relays are active
/// low: on is level low (`false`), off is level high (`true`).
pub open spec fn spec_relay_level(output: RelayOutput) -> Option<bool> {
    match output {
        RelayOutput::ON => Some(false),
        RelayOutput::OFF => Some(true),
        RelayOutput::NoChange => None,
    }
}

/// The GPIO level to set for `output`, if any (see `spec_relay_level`).
pub fn relay_level(output: RelayOutput) -> (r: Option<bool>)
    ensures
        r == spec_relay_level(output),
        output == RelayOutput::ON ==> r == Some(false),
        output == RelayOutput::OFF ==> r == Some(true),
        output == RelayOutput::NoChange ==> r.is_none(),
{
    match output {
        RelayOutput::ON => Some(false),
        RelayOutput::OFF => Some(true),
        RelayOutput::NoChange => None,
    }
}

/// The settings of one GPIO pin: its mask in the pin register, whether it
/// drives an output, and its pulls. Interrupts stay disabled.
#[derive(Debug, Clone, Copy, PartialEq, Eq)]
pub struct GpioConfig {
    pub pin_bit_mask: u64,
    pub output: bool,
    pub interrupts: bool,
    pub pull_down: bool,
    pub pull_up: bool,
}

impl RelayStateController {
    /// The settings that claim pin `pin_num` as an output (`enable`) or
    /// release it: the pin's own bit in the mask, pull-down on, pull-up off.
    pub fn gpio_config(pin_num: u8, enable: bool) -> (r: GpioConfig)
        requires
            pin_num < 64,
        ensures
            r.pin_bit_mask == pow2(pin_num as nat),
            r.output == enable,
            !r.interrupts,
            r.pull_down,
            !r.pull_up,
    {
        proof {
            lemma_u64_pow2_no_overflow(pin_num as nat);
            lemma_u64_shl_is_mul(1, pin_num as u64);
        }
        GpioConfig {
            pin_bit_mask: 1u64 << (pin_num as u64),
            output: enable,
            interrupts: false,
            pull_down: true,
            pull_up: false,
        }
    }

    /// What a relay with dependence `criteria` should do when its sensor
    /// reads `current_sensor_value`.
    pub fn check_criteria(criteria: &RelayStateDependence, current_sensor_value: &SensorValue) -> (r: RelayOutput)
        ensures
            r == criteria_output(*criteria, *current_sensor_value),
            criteria.measurement_type == 1 ==> (r == RelayOutput::ON <==> word_lt(criteria.range.0, current_sensor_value.himidity)
                && word_lt(current_sensor_value.himidity, criteria.range.1)),
            criteria.measurement_type == 2 ==> (r == RelayOutput::ON <==> word_lt(criteria.range.0, current_sensor_value.temperature)
                && word_lt(current_sensor_value.temperature, criteria.range.1)),
            criteria.measurement_type == 4 ==> (r == RelayOutput::ON <==> word_lt(criteria.range.0, current_sensor_value.voltage)
                && word_lt(current_sensor_value.voltage, criteria.range.1)),
            (criteria.measurement_type == 1 || criteria.measurement_type == 2 || criteria.measurement_type == 4)
                ==> r != RelayOutput::NoChange,
            criteria.measurement_type == 8 ==> r == RelayOutput::ON,
            criteria.measurement_type == 16 ==> r == RelayOutput::OFF,
            !(criteria.measurement_type == 1 || criteria.measurement_type == 2 || criteria.measurement_type == 4
                || criteria.measurement_type == 8 || criteria.measurement_type == 16) ==> r == RelayOutput::NoChange,
    {
        match criteria.measurement_type {
            MEASUREMENT_TYPE_HUMIDITY => {
                if lt(criteria.range.0, current_sensor_value.himidity)
                    && lt(current_sensor_value.himidity, criteria.range.1) {
                    RelayOutput::ON
                } else {
                    RelayOutput::OFF
                }
            },
            MEASUREMENT_TYPE_TEMPERATURE => {
                if lt(criteria.range.0, current_sensor_value.temperature)
                    && lt(current_sensor_value.temperature, criteria.range.1) {
                    RelayOutput::ON
                } else {
                    RelayOutput::OFF
                }
            },
            MEASUREMENT_TYPE_VOLTAGE => {
                if lt(criteria.range.0, current_sensor_value.voltage)
                    && lt(current_sensor_value.voltage, criteria.range.1) {
                    RelayOutput::ON
                } else {
                    RelayOutput::OFF
                }
            },
            MEASUREMENT_TYPE_NONE_ALWAYS_ON => RelayOutput::ON,
            MEASUREMENT_TYPE_NONE_ALWAYS_OFF => RelayOutput::OFF,
            _ => RelayOutput::NoChange,
        }
    }
}

/// The state of the relay board: the GPIO pin of each of the eight relays,
/// the dependence of each, and, per relay, the packet and the time of its
/// last switching and what it was last switched to.
pub struct RelayStateController {
    pins: [u8; 8],
    last_update: [i64; 8],
    relay_states_criteria: [RelayStateDependence; 8],
    past_sensor_values: [(SensorPacket, u32, i64); 8],
    past_relays_states: [RelayOutput; 8],
}

/// The abstract state of a `RelayStateController`: one entry per relay.
pub struct ControllerModel {
    pub pins: Seq<u8>,
    pub last_update: Seq<i64>,
    pub criteria: Seq<RelayStateDependence>,
    pub past_sensor_values: Seq<(SensorPacket, u32, i64)>,
    pub past_relays_states: Seq<RelayOutput>,
}

impl View for RelayStateController {
    type V = ControllerModel;

    closed spec fn view(&self) -> ControllerModel {
        ControllerModel {
            pins: self.pins@,
            last_update: self.last_update@,
            criteria: self.relay_states_criteria@,
            past_sensor_values: self.past_sensor_values@,
            past_relays_states: self.past_relays_states@,
        }
    }
}

/// Every sequence of the model has one entry per relay.
pub open spec fn model_has_eight_relays(m: ControllerModel) -> bool {
    &&& m.pins.len() == 8
    &&& m.last_update.len() == 8
    &&& m.criteria.len() == 8
    &&& m.past_sensor_values.len() == 8
    &&& m.past_relays_states.len() == 8
}

/// What relay `relay_id` does in one polling pass over the cache `sensors`:
/// nothing if it depends on no sensor, else what its criteria say of the
/// reading in its sensor's slot.
pub open spec fn poll_output(m: ControllerModel, sensors: Seq<(SensorPacket, u64)>, relay_id: int) -> RelayOutput {
    let c = m.criteria[relay_id];
    if c.sensor_id == 0 {
        RelayOutput::NoChange
    } else {
        criteria_output(c, sensors[c.sensor_id as int].0.sensor_data)
    }
}

/// Whether every relay that depends on a sensor names a slot of the cache.
pub open spec fn sensors_cover_criteria(m: ControllerModel, sensors: Seq<(SensorPacket, u64)>) -> bool {
    forall|r: int| 0 <= r < 8 && #[trigger] m.criteria[r].sensor_id != 0
        ==> (m.criteria[r].sensor_id as int) < sensors.len()
}

/// The record of relay `relay_id` after a polling pass at time `now`: a relay
/// that was switched keeps the packet that decided it and the time.
pub open spec fn polled_record(m: ControllerModel, sensors: Seq<(SensorPacket, u64)>, relay_id: int, now: i64) -> (SensorPacket, u32, i64) {
    let out = poll_output(m, sensors, relay_id);
    let old_record = m.past_sensor_values[relay_id];
    if out == RelayOutput::NoChange {
        old_record
    } else {
        (sensors[m.criteria[relay_id].sensor_id as int].0, old_record.1, now)
    }
}

/// What relay `relay_id` was last switched to, after a polling pass.
pub open spec fn polled_state(m: ControllerModel, sensors: Seq<(SensorPacket, u64)>, relay_id: int) -> RelayOutput {
    let out = poll_output(m, sensors, relay_id);
    if out == RelayOutput::NoChange { m.past_relays_states[relay_id] } else { out }
}

impl RelayStateController {
    /// A controller for the relays on `relay_pins`, each depending on no
    /// sensor and with no history.
    pub fn new(relay_pins: &[u8; 8]) -> (r: Result<Self, i32>)
        ensures
            r is Ok,
            r matches Ok(c) ==> {
                &&& model_has_eight_relays(c@)
                &&& c@.pins == relay_pins@
                &&& forall|i: int| 0 <= i < 8 ==> {
                    &&& #[trigger] c@.criteria[i] == default_dependence()
                    &&& c@.last_update[i] == 0
                    &&& c@.past_sensor_values[i] == (default_packet(), 0u32, 0i64)
                    &&& c@.past_relays_states[i] == RelayOutput::NoChange
                }
            },
    {
        let c = RelayStateController {
            pins: *relay_pins,
            last_update: [0i64; 8],
            relay_states_criteria: [RelayStateDependence::default(); 8],
            past_sensor_values: [(SensorPacket::default(), 0u32, 0i64); 8],
            past_relays_states: [RelayOutput::NoChange; 8],
        };
        proof {
            assert(c@.pins =~= relay_pins@);
        }
        Ok(c)
    }

    /// The GPIO pin of each relay.
    pub fn pins(&self) -> (r: [u8; 8])
        ensures
            r@ == self@.pins,
    {
        self.pins
    }

    /// The dependence of each relay.
    pub fn get_relays_criteria_instance(&self) -> (r: [RelayStateDependence; 8])
        ensures
            r@ == self@.criteria,
    {
        self.relay_states_criteria
    }

    /// Per relay, the packet that last switched it, and the time of that switching.
    pub fn get_status_instance(&self) -> (r: [(SensorPacket, u32, i64); 8])
        ensures
            r@ == self@.past_sensor_values,
    {
        self.past_sensor_values
    }

    /// Replaces the dependence of relay `relay_id`.
    pub fn update_criteria(&mut self, relay_id: u8, criteria: &RelayStateDependence)
        requires
            relay_id < 8,
        ensures
            final(self)@.criteria == old(self)@.criteria.update(relay_id as int, *criteria),
            final(self)@.pins == old(self)@.pins,
            final(self)@.last_update == old(self)@.last_update,
            final(self)@.past_sensor_values == old(self)@.past_sensor_values,
            final(self)@.past_relays_states == old(self)@.past_relays_states,
    {
        self.relay_states_criteria[relay_id as usize] = *criteria;
        proof {
            assert(self@.criteria =~= old(self)@.criteria.update(relay_id as int, *criteria));
        }
    }

    /// Whether `poll` can run over `sensors`: every relay that depends on a
    /// sensor names a slot of the cache.
    pub fn covers_criteria(&self, sensors: &Vec<(SensorPacket, u64)>) -> (r: bool)
        ensures
            r == sensors_cover_criteria(self@, sensors@),
    {
        let mut i: usize = 0;
        while i < 8
            invariant
                i <= 8,
                forall|r: int| 0 <= r < i && #[trigger] self@.criteria[r].sensor_id != 0
                    ==> (self@.criteria[r].sensor_id as int) < sensors@.len(),
            decreases 8 - i,
        {
            let id = self.relay_states_criteria[i].sensor_id;
            if id != 0 && id as usize >= sensors.len() {
                assert(self@.criteria[i as int].sensor_id == id);
                return false;
            }
            i = i + 1;
        }
        true
    }

    /// One polling pass at time `now` over the sensor cache: decides each
    /// relay from its dependence and records the relays that it switches.
    /// Returns, per relay, what to drive it to.
    pub fn poll(&mut self, sensors: &Vec<(SensorPacket, u64)>, now: i64) -> (r: [RelayOutput; 8])
        requires
            sensors_cover_criteria(old(self)@, sensors@),
        ensures
            forall|i: int| 0 <= i < 8 ==> #[trigger] r@[i] == poll_output(old(self)@, sensors@, i),
            final(self)@.pins == old(self)@.pins,
            final(self)@.last_update == old(self)@.last_update,
            final(self)@.criteria == old(self)@.criteria,
            forall|i: int| 0 <= i < 8 ==>
                #[trigger] final(self)@.past_sensor_values[i] == polled_record(old(self)@, sensors@, i, now),
            forall|i: int| 0 <= i < 8 ==>
                #[trigger] final(self)@.past_relays_states[i] == polled_state(old(self)@, sensors@, i),
            forall|i: int| 0 <= i < 8 && #[trigger] r@[i] != RelayOutput::NoChange ==> {
                &&& old(self)@.criteria[i].sensor_id != 0
                &&& r@[i] == criteria_output(old(self)@.criteria[i], sensors@[old(self)@.criteria[i].sensor_id as int].0.sensor_data)
                &&& final(self)@.past_sensor_values[i] == (sensors@[old(self)@.criteria[i].sensor_id as int].0,
                        old(self)@.past_sensor_values[i].1, now)
                &&& final(self)@.past_relays_states[i] == r@[i]
            },
            forall|i: int| 0 <= i < 8 && #[trigger] r@[i] == RelayOutput::NoChange ==> {
                &&& final(self)@.past_sensor_values[i] == old(self)@.past_sensor_values[i]
                &&& final(self)@.past_relays_states[i] == old(self)@.past_relays_states[i]
            },
    {
        let mut out: [RelayOutput; 8] = [RelayOutput::NoChange; 8];
        let mut relay_id: usize = 0;
        while relay_id < 8
            invariant
                relay_id <= 8,
                sensors_cover_criteria(old(self)@, sensors@),
                self.pins == old(self).pins,
                self.last_update == old(self).last_update,
                self.relay_states_criteria == old(self).relay_states_criteria,
                forall|i: int| 0 <= i < relay_id ==> #[trigger] out@[i] == poll_output(old(self)@, sensors@, i),
                forall|i: int| relay_id <= i < 8 ==> #[trigger] out@[i] == RelayOutput::NoChange,
                forall|i: int| 0 <= i < relay_id ==>
                    #[trigger] self.past_sensor_values@[i] == polled_record(old(self)@, sensors@, i, now),
                forall|i: int| 0 <= i < relay_id ==>
                    #[trigger] self.past_relays_states@[i] == polled_state(old(self)@, sensors@, i),
                forall|i: int| relay_id <= i < 8 ==>
                    #[trigger] self.past_sensor_values@[i] == old(self).past_sensor_values@[i],
                forall|i: int| relay_id <= i < 8 ==>
                    #[trigger] self.past_relays_states@[i] == old(self).past_relays_states@[i],
            decreases 8 - relay_id,
        {
            let criteria = self.relay_states_criteria[relay_id];
            if criteria.sensor_id != 0 {
                assert(old(self)@.criteria[relay_id as int].sensor_id != 0);
                let sensor = sensors[criteria.sensor_id as usize].0;
                let decision = Self::check_criteria(&criteria, &sensor.sensor_data);
                match decision {
                    RelayOutput::ON | RelayOutput::OFF => {
                        let kept: u32 = self.past_sensor_values[relay_id].1;
                        self.past_sensor_values[relay_id] = (sensor, kept, now);
                        self.past_relays_states[relay_id] = decision;
                    },
                    RelayOutput::NoChange => {},
                }
                out[relay_id] = decision;
            }
            relay_id = relay_id + 1;
        }
        proof {
            assert(self@.pins == old(self)@.pins);
            assert(self@.criteria == old(self)@.criteria);
            assert(self@.last_update == old(self)@.last_update);
        }
        out
    }
}

/// A dependence that passes `validate` always decides: its relay is switched
/// on or off, never left as it is.
pub proof fn lemma_valid_dependence_decides(d: RelayStateDependence, value: SensorValue)
    requires
        is_valid_dependence(d),
    ensures
        criteria_output(d, value) != RelayOutput::NoChange,
{
}

/// A relay whose measurement type is not a measured quantity does the same
/// whatever its sensor reads.
pub proof fn lemma_unmeasured_ignores_reading(d: RelayStateDependence, v1: SensorValue, v2: SensorValue)
    requires
        d.measurement_type != MEASUREMENT_TYPE_HUMIDITY,
        d.measurement_type != MEASUREMENT_TYPE_TEMPERATURE,
        d.measurement_type != MEASUREMENT_TYPE_VOLTAGE,
    ensures
        criteria_output(d, v1) == criteria_output(d, v2),
{
}

/// A relay whose interval is empty (its lower bound is not below its upper
/// bound) is never switched on by a measured quantity.
pub proof fn lemma_empty_range_never_on(d: RelayStateDependence, value: SensorValue)
    requires
        !word_lt(d.range.0, d.range.1),
        d.measurement_type == MEASUREMENT_TYPE_HUMIDITY
            || d.measurement_type == MEASUREMENT_TYPE_TEMPERATURE
            || d.measurement_type == MEASUREMENT_TYPE_VOLTAGE,
    ensures
        criteria_output(d, value) == RelayOutput::OFF,
{
    crate::reading::lemma_lt_strict_order(d.range.0, value.himidity, d.range.1);
    crate::reading::lemma_lt_strict_order(d.range.0, value.temperature, d.range.1);
    crate::reading::lemma_lt_strict_order(d.range.0, value.voltage, d.range.1);
}

/// A polling pass leaves a relay that depends on no sensor alone: no
/// switching, and its record and last state unchanged.
pub proof fn lemma_unassigned_relay_untouched(m: ControllerModel, sensors: Seq<(SensorPacket, u64)>, relay_id: int, now: i64)
    requires
        0 <= relay_id < 8,
        m.criteria[relay_id].sensor_id == 0,
    ensures
        poll_output(m, sensors, relay_id) == RelayOutput::NoChange,
        polled_record(m, sensors, relay_id, now) == m.past_sensor_values[relay_id],
        polled_state(m, sensors, relay_id) == m.past_relays_states[relay_id],
{
}

/// The controller after a polling pass of `m` over `sensors` at time `now`.
pub open spec fn polled_model(m: ControllerModel, sensors: Seq<(SensorPacket, u64)>, now: i64) -> ControllerModel {
    ControllerModel {
        past_sensor_values: Seq::new(8, |i: int| polled_record(m, sensors, i, now)),
        past_relays_states: Seq::new(8, |i: int| polled_state(m, sensors, i)),
        ..m
    }
}

/// Polling the same cache again switches every relay the same way and
/// leaves each relay in the same state; only the switching times move.
pub proof fn lemma_poll_repeat_stable(m: ControllerModel, sensors: Seq<(SensorPacket, u64)>, now1: i64, now2: i64, relay_id: int)
    requires
        model_has_eight_relays(m),
        0 <= relay_id < 8,
    ensures
        poll_output(polled_model(m, sensors, now1), sensors, relay_id) == poll_output(m, sensors, relay_id),
        polled_state(polled_model(m, sensors, now1), sensors, relay_id) == polled_state(m, sensors, relay_id),
        polled_record(polled_model(m, sensors, now1), sensors, relay_id, now2).0 == polled_record(m, sensors, relay_id, now1).0,
{
}

/// How a measured quantity decides a relay, stated on the reading itself:
/// the relay is switched on exactly when the quantity that its dependence
/// names lies strictly between the two bounds, and off otherwise; the
/// reading is compared as it is, sign included.
pub proof fn lemma_measured_decision(c: RelayStateDependence, v: SensorValue)
    ensures
        c.measurement_type == 1 ==> {
            &&& criteria_output(c, v) != RelayOutput::NoChange
            &&& (criteria_output(c, v) == RelayOutput::ON <==> word_lt(c.range.0, v.himidity) && word_lt(v.himidity, c.range.1))
        },
        c.measurement_type == 2 ==> {
            &&& criteria_output(c, v) != RelayOutput::NoChange
            &&& (criteria_output(c, v) == RelayOutput::ON <==> word_lt(c.range.0, v.temperature) && word_lt(v.temperature, c.range.1))
        },
        c.measurement_type == 4 ==> {
            &&& criteria_output(c, v) != RelayOutput::NoChange
            &&& (criteria_output(c, v) == RelayOutput::ON <==> word_lt(c.range.0, v.voltage) && word_lt(v.voltage, c.range.1))
        },
{
}

/// A negative reading between two bounds switches its relay on: for two
/// negative bounds and a negative reading (none NaN), the relay is on exactly
/// when the reading's magnitude lies strictly between the bounds' magnitudes
/// (the lower bound having the larger magnitude).
pub proof fn lemma_negative_reading_decision(c: RelayStateDependence, v: SensorValue)
    requires
        c.measurement_type == 2,
        0x8000_0000 <= c.range.0 <= 0xFF80_0000,
        0x8000_0000 <= c.range.1 <= 0xFF80_0000,
        0x8000_0000 <= v.temperature <= 0xFF80_0000,
    ensures
        criteria_output(c, v) == RelayOutput::ON <==> (v.temperature < c.range.0 && c.range.1 < v.temperature),
{
    crate::reading::lemma_word_order(c.range.0, v.temperature);
    crate::reading::lemma_word_order(v.temperature, c.range.1);
}

/// Which dependences `validate` accepts, stated on the raw bound words: a
/// humidity interval must start below `100.0` and end above `0.0`, a
/// temperature interval start below `125.0` and end above `-40.0`, a voltage
/// interval start below `5.0` and end above `0.0`; always-on and always-off
/// need only a sensor; nothing without a sensor or of another type passes.
pub proof fn lemma_validity(d: RelayStateDependence)
    ensures
        d.sensor_id == 0 ==> !is_valid_dependence(d),
        d.sensor_id != 0 && d.measurement_type == 1
            ==> (is_valid_dependence(d) <==> word_lt(d.range.0, 0x42C8_0000) && word_lt(0x0000_0000, d.range.1)),
        d.sensor_id != 0 && d.measurement_type == 2
            ==> (is_valid_dependence(d) <==> word_lt(d.range.0, 0x42FA_0000) && word_lt(0xC220_0000, d.range.1)),
        d.sensor_id != 0 && d.measurement_type == 4
            ==> (is_valid_dependence(d) <==> word_lt(d.range.0, 0x40A0_0000) && word_lt(0x0000_0000, d.range.1)),
        d.sensor_id != 0 && (d.measurement_type == 8 || d.measurement_type == 16) ==> is_valid_dependence(d),
        !(d.measurement_type == 1 || d.measurement_type == 2 || d.measurement_type == 4
            || d.measurement_type == 8 || d.measurement_type == 16) ==> !is_valid_dependence(d),
{
}

/// Every non-empty voltage interval inside `(0.0, 5.0)` is valid.
pub proof fn lemma_voltage_interval_inside_span_valid(d: RelayStateDependence)
    requires
        d.sensor_id != 0,
        d.measurement_type == 4,
        word_lt(0x0000_0000, d.range.0),
        word_lt(d.range.0, d.range.1),
        word_lt(d.range.1, 0x40A0_0000),
    ensures
        is_valid_dependence(d),
{
    crate::reading::lemma_lt_strict_order(d.range.0, d.range.1, 0x40A0_0000);
    crate::reading::lemma_lt_strict_order(0x0000_0000, d.range.0, d.range.1);
}

/// After a polling pass, a relay that was switched (on or off) records the
/// packet found in its sensor's slot, whatever that packet holds, and the
/// time of the pass; its state is what it was switched to. A relay that was
/// not switched keeps its record and state.
pub proof fn lemma_switched_relay_record(m: ControllerModel, sensors: Seq<(SensorPacket, u64)>, relay_id: int, now: i64)
    requires
        0 <= relay_id < 8,
    ensures
        poll_output(m, sensors, relay_id) != RelayOutput::NoChange ==> {
            &&& m.criteria[relay_id].sensor_id != 0
            &&& polled_record(m, sensors, relay_id, now)
                == (sensors[m.criteria[relay_id].sensor_id as int].0, m.past_sensor_values[relay_id].1, now)
            &&& polled_state(m, sensors, relay_id) == poll_output(m, sensors, relay_id)
        },
        poll_output(m, sensors, relay_id) == RelayOutput::NoChange ==> {
            &&& polled_record(m, sensors, relay_id, now) == m.past_sensor_values[relay_id]
            &&& polled_state(m, sensors, relay_id) == m.past_relays_states[relay_id]
        },
        m.criteria[relay_id].sensor_id != 0 ==> poll_output(m, sensors, relay_id)
            == criteria_output(m.criteria[relay_id], sensors[m.criteria[relay_id].sensor_id as int].0.sensor_data),
{
}

} // verus!
