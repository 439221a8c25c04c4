# monitoring_system

A sensor network of ESP32 nodes: sensor nodes send humidity, temperature
and voltage readings over ESP-NOW to a monitoring node, which caches them,
switches eight relays from per-relay criteria, and serves the cache and the
relay configuration over HTTP.

- `src/` is the verified library (Verus): the reading order, the sensor
  cache and its expiry, the relay criteria and the polling pass, what the
  web interface computes, the ADC and GPIO settings, and the Wi-Fi bring-up
  sequence.
- `app/` drives the hardware through ESP-IDF: radio, GPIO, ADC, HTTP server,
  timers and threads, and the serde forms of packets and configurations.

Readings are IEEE-754 single-precision values. The library holds each as its
32-bit word and orders words as `<` orders the values (`reading::lt`); `app/`
converts with `f32::to_bits` and `f32::from_bits`.
