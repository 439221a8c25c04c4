//! Sensor readings and the cache of the latest packet heard from each sensor node.
use vstd::prelude::*;

verus! {

/// The reading carries a relative humidity.
pub const SENSOR_TYPE_HIMIDITY: u8 = 1;

/// The reading carries a temperature.
pub const SENSOR_TYPE_TEMPERATURE: u8 = 2;

/// The reading carries both a humidity and a temperature.
pub const SENSOR_TYPE_H_T: u8 = SENSOR_TYPE_HIMIDITY + SENSOR_TYPE_TEMPERATURE;

/// The reading carries a voltage.
pub const SENSOR_TYPE_VOLTAGE: u8 = 4;

/// Microseconds in a second: cache timestamps are in microseconds, timeouts in seconds.
pub const MICROS_PER_SECOND: u64 = 1_000_000;

/// What a sensor measured. The three quantities are IEEE-754 single-precision
/// words (see `reading`); a quantity that the sensor does not measure is `0.0`.
#[derive(Debug, Clone, Copy, PartialEq, Eq)]
pub struct SensorValue {
    /// One of the `SENSOR_TYPE_*` constants.
    pub sensor_type: u8,
    pub himidity: u32,
    pub temperature: u32,
    pub voltage: u32,
}

/// The reading that `SensorValue::default` gives: both humidity and temperature, all `0.0`.
pub open spec fn default_sensor_value() -> SensorValue {
    SensorValue { sensor_type: SENSOR_TYPE_H_T, himidity: 0, temperature: 0, voltage: 0 }
}

impl Default for SensorValue {
    fn default() -> (r: Self)
        ensures
            r == default_sensor_value(),
    {
        SensorValue { sensor_type: SENSOR_TYPE_H_T, himidity: 0, temperature: 0, voltage: 0 }
    }
}

impl SensorValue {
    /// A humidity reading.
    pub fn humidity(h: u32) -> (r: Self)
        ensures
            r == (SensorValue { sensor_type: SENSOR_TYPE_HIMIDITY, himidity: h, ..default_sensor_value() }),
    {
        SensorValue { sensor_type: SENSOR_TYPE_HIMIDITY, himidity: h, ..Default::default() }
    }

    /// A temperature reading.
    pub fn temperature(t: u32) -> (r: Self)
        ensures
            r == (SensorValue { sensor_type: SENSOR_TYPE_TEMPERATURE, temperature: t, ..default_sensor_value() }),
    {
        SensorValue { sensor_type: SENSOR_TYPE_TEMPERATURE, temperature: t, ..Default::default() }
    }

    /// A voltage reading.
    pub fn voltage(v: u32) -> (r: Self)
        ensures
            r == (SensorValue { sensor_type: SENSOR_TYPE_VOLTAGE, voltage: v, ..default_sensor_value() }),
    {
        SensorValue { sensor_type: SENSOR_TYPE_VOLTAGE, voltage: v, ..Default::default() }
    }

    /// A combined humidity and temperature reading.
    pub fn humidity_temperature(h: u32, t: u32) -> (r: Self)
        ensures
            r == (SensorValue { sensor_type: SENSOR_TYPE_H_T, himidity: h, temperature: t, voltage: 0 }),
    {
        SensorValue { sensor_type: SENSOR_TYPE_H_T, himidity: h, temperature: t, voltage: 0 }
    }
}

/// What a sensor node sends: who it is, what it measured, and when.
#[derive(Debug, Clone, Copy, PartialEq, Eq)]
pub struct SensorPacket {
    /// The node's id; `0` marks an empty slot of the cache.
    pub sensor_id: u8,
    pub sensor_data: SensorValue,
    pub timestamp: u64,
}

/// The packet that `SensorPacket::default` gives: the empty slot.
pub open spec fn default_packet() -> SensorPacket {
    SensorPacket { sensor_id: 0, sensor_data: default_sensor_value(), timestamp: 0 }
}

impl Default for SensorPacket {
    fn default() -> (r: Self)
        ensures
            r == default_packet(),
    {
        SensorPacket { sensor_id: 0, sensor_data: SensorValue::default(), timestamp: 0 }
    }
}

/// How many sensor nodes the cache has room for, and after how many seconds
/// of silence a node's packet is dropped.
#[derive(Debug, Clone, Copy, PartialEq, Eq)]
pub struct EspMonitorConfiguration {
    pub max_nodes: u32,
    pub node_timeout: u32,
}

impl Default for EspMonitorConfiguration {
    fn default() -> (r: Self)
        ensures
            r.max_nodes == 0,
            r.node_timeout == 0,
    {
        EspMonitorConfiguration { max_nodes: 0, node_timeout: 0 }
    }
}

/// The timeout of a configuration, in microseconds.
pub open spec fn timeout_micros(config: EspMonitorConfiguration) -> int {
    config.node_timeout * MICROS_PER_SECOND
}

/// Whether a cached entry, last refreshed at `cached_at`, holds a node that
/// has been silent for longer than the timeout at time `now`.
pub open spec fn is_stale(entry: (SensorPacket, u64), config: EspMonitorConfiguration, now: u64) -> bool {
    entry.0.sensor_id != 0 && entry.1 + timeout_micros(config) < now
}

/// An entry after one expiry pass at time `now`: a stale packet is replaced
/// by the empty packet, and its cache timestamp is kept.
pub open spec fn expired_entry(entry: (SensorPacket, u64), config: EspMonitorConfiguration, now: u64) -> (SensorPacket, u64) {
    if is_stale(entry, config, now) { (default_packet(), entry.1) } else { entry }
}

/// Whether the expiry arithmetic `cached_at + timeout` fits in 64 bits for
/// every occupied entry (the sum is only formed for those).
pub open spec fn expiry_fits(sensors: Seq<(SensorPacket, u64)>, config: EspMonitorConfiguration) -> bool {
    forall|i: int| 0 <= i < sensors.len() && #[trigger] sensors[i].0.sensor_id != 0
        ==> sensors[i].1 + timeout_micros(config) <= u64::MAX
}

/// The monitoring node's cache: slot `i` holds the last packet from the node
/// with id `i` and the time (in microseconds) at which it arrived.
pub struct EspNowMonitor {
    pub sensor_data: Vec<(SensorPacket, u64)>,
    pub config: EspMonitorConfiguration,
}

impl EspNowMonitor {
    /// An empty cache with one slot per node that the configuration allows.
    pub fn new(config: &EspMonitorConfiguration) -> (r: Self)
        ensures
            r.config == *config,
            r.sensor_data@.len() == config.max_nodes,
            forall|i: int| 0 <= i < r.sensor_data@.len() ==> #[trigger] r.sensor_data@[i] == (default_packet(), 0u64),
    {
        let mut sensor_data: Vec<(SensorPacket, u64)> = Vec::new();
        let mut n: u32 = 0;
        while n < config.max_nodes
            invariant
                n <= config.max_nodes,
                sensor_data@.len() == n,
                forall|i: int| 0 <= i < sensor_data@.len() ==> #[trigger] sensor_data@[i] == (default_packet(), 0u64),
            decreases config.max_nodes - n,
        {
            sensor_data.push((SensorPacket::default(), 0u64));
            n = n + 1;
        }
        EspNowMonitor { sensor_data, config: *config }
    }

    /// One expiry pass at time `now` (microseconds): every occupied slot whose
    /// packet arrived more than `node_timeout` seconds before `now` is emptied.
    pub fn expire_timed_out(&mut self, now: u64)
        requires
            expiry_fits(old(self).sensor_data@, old(self).config),
        ensures
            final(self).config == old(self).config,
            final(self).sensor_data@.len() == old(self).sensor_data@.len(),
            forall|i: int| 0 <= i < final(self).sensor_data@.len() ==>
                #[trigger] final(self).sensor_data@[i] == expired_entry(old(self).sensor_data@[i], old(self).config, now),
            forall|i: int| 0 <= i < final(self).sensor_data@.len() ==> {
                let e = #[trigger] old(self).sensor_data@[i];
                final(self).sensor_data@[i] == if e.0.sensor_id != 0
                    && e.1 + old(self).config.node_timeout * 1_000_000 < now { (default_packet(), e.1) } else { e }
            },
    {
        let timeout: u64 = self.config.node_timeout as u64 * MICROS_PER_SECOND;
        let len = self.sensor_data.len();
        let mut i: usize = 0;
        while i < len
            invariant
                i <= len,
                len == old(self).sensor_data@.len(),
                self.config == old(self).config,
                timeout == timeout_micros(self.config),
                expiry_fits(old(self).sensor_data@, old(self).config),
                self.sensor_data@.len() == len,
                forall|j: int| 0 <= j < i ==>
                    #[trigger] self.sensor_data@[j] == expired_entry(old(self).sensor_data@[j], old(self).config, now),
                forall|j: int| i <= j < len ==> #[trigger] self.sensor_data@[j] == old(self).sensor_data@[j],
            decreases len - i,
        {
            let entry = self.sensor_data[i];
            if entry.0.sensor_id != 0 {
                assert(old(self).sensor_data@[i as int].0.sensor_id != 0);
                if entry.1 + timeout < now {
                    self.sensor_data.set(i, (SensorPacket::default(), entry.1));
                }
            }
            i = i + 1;
        }
    }

    /// Whether `expire_timed_out` can run on this cache: the expiry time of
    /// every occupied slot fits in 64 bits.
    pub fn can_expire(&self) -> (r: bool)
        ensures
            r == expiry_fits(self.sensor_data@, self.config),
            r <==> forall|i: int| 0 <= i < self.sensor_data@.len() && #[trigger] self.sensor_data@[i].0.sensor_id != 0
                ==> self.sensor_data@[i].1 + self.config.node_timeout * 1_000_000 <= u64::MAX,
    {
        let timeout: u64 = self.config.node_timeout as u64 * MICROS_PER_SECOND;
        let mut i: usize = 0;
        while i < self.sensor_data.len()
            invariant
                i <= self.sensor_data@.len(),
                timeout == timeout_micros(self.config),
                forall|j: int| 0 <= j < i && #[trigger] self.sensor_data@[j].0.sensor_id != 0
                    ==> self.sensor_data@[j].1 + timeout_micros(self.config) <= u64::MAX,
            decreases self.sensor_data@.len() - i,
        {
            let entry = self.sensor_data[i];
            if entry.0.sensor_id != 0 && entry.1 > u64::MAX - timeout {
                return false;
            }
            i = i + 1;
        }
        true
    }

    /// Stores a packet that just arrived at time `now` in the slot of its node.
    pub fn record_packet(&mut self, packet: SensorPacket, now: u64)
        requires
            (packet.sensor_id as int) < old(self).sensor_data@.len(),
        ensures
            final(self).config == old(self).config,
            final(self).sensor_data@ == old(self).sensor_data@.update(packet.sensor_id as int, (packet, now)),
    {
        self.sensor_data.set(packet.sensor_id as usize, (packet, now));
    }

    /// A copy of the cache.
    pub fn get_sensors_instance(&self) -> (r: Vec<(SensorPacket, u64)>)
        ensures
            r@ == self.sensor_data@,
    {
        let mut r: Vec<(SensorPacket, u64)> = Vec::new();
        let mut i: usize = 0;
        while i < self.sensor_data.len()
            invariant
                i <= self.sensor_data@.len(),
                r@ == self.sensor_data@.take(i as int),
            decreases self.sensor_data@.len() - i,
        {
            r.push(self.sensor_data[i]);
            i = i + 1;
            assert(r@ =~= self.sensor_data@.take(i as int));
        }
        assert(self.sensor_data@.take(i as int) =~= self.sensor_data@);
        r
    }
}

/// After an expiry pass at time `now` no slot holds a stale packet, and a
/// second pass at the same time changes nothing.
pub proof fn lemma_expiry_clears_stale(entry: (SensorPacket, u64), config: EspMonitorConfiguration, now: u64)
    ensures
        !is_stale(expired_entry(entry, config, now), config, now),
        expired_entry(expired_entry(entry, config, now), config, now) == expired_entry(entry, config, now),
{
}

/// A packet recorded at time `now` survives an expiry pass at any time up
/// to the timeout after `now`; an empty slot is never touched.
pub proof fn lemma_fresh_packet_survives(packet: SensorPacket, recorded_at: u64, config: EspMonitorConfiguration, now: u64)
    requires
        now <= recorded_at + timeout_micros(config),
    ensures
        expired_entry((packet, recorded_at), config, now) == (packet, recorded_at),
        expired_entry((default_packet(), recorded_at), config, now) == (default_packet(), recorded_at),
{
}

/// The expiry threshold, stated on the configuration: a packet recorded at
/// `t` survives an expiry pass at any `now` up to `t` plus `node_timeout`
/// seconds (in microseconds), and an occupied slot is emptied, keeping `t`,
/// at any later `now`.
pub proof fn lemma_expiry_threshold(packet: SensorPacket, t: u64, config: EspMonitorConfiguration, now: u64)
    ensures
        now <= t + config.node_timeout * 1_000_000 ==> expired_entry((packet, t), config, now) == (packet, t),
        packet.sensor_id != 0 && now > t + config.node_timeout * 1_000_000
            ==> expired_entry((packet, t), config, now) == (default_packet(), t),
        packet.sensor_id == 0 ==> expired_entry((packet, t), config, now) == (packet, t),
        timeout_micros(config) == config.node_timeout * 1_000_000,
{
}

/// `can_expire` is exactly the check that `t + node_timeout` seconds fits in
/// 64 bits for every occupied slot.
pub proof fn lemma_expiry_fits_meaning(sensors: Seq<(SensorPacket, u64)>, config: EspMonitorConfiguration)
    ensures
        expiry_fits(sensors, config) <==> forall|i: int| 0 <= i < sensors.len() && #[trigger] sensors[i].0.sensor_id != 0
            ==> sensors[i].1 + config.node_timeout * 1_000_000 <= u64::MAX,
{
}

} // verus!
