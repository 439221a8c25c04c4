//! Sensor monitoring and relay automation for a network of ESP32 nodes.
//!
//! Sensor nodes broadcast `SensorPacket`s; the monitoring node caches them
//! (`monitoring_module`), decides the state of eight relays from the cached
//! readings and per-relay criteria (`automation_module`), and serves the
//! cache and the relay configuration over HTTP (`http_backend`).
//! Readings travel as IEEE-754 single-precision words; `reading` orders them.
pub mod reading;

pub mod monitoring_module;
pub mod automation_module;
pub mod http_backend;
pub mod hals;
pub mod wifi_module;
