//! Session and alert-dispatch logic of a two-node notification relay.
//!
//! A sensor node hosts a wireless network, listens for one stream
//! connection and turns debounced trigger edges into notifications; an
//! alert node joins that network, dials the sensor node and renders an
//! alert for each notification that the rate limiter lets through. The
//! radio, the network stack, the clock and the outputs stay outside: the
//! library decides, the firmware acts and reports back.
pub mod gate;
pub mod session;
pub mod lemmas;
pub mod music;
