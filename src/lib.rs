//! Verified control core of a three-wheel omnidirectional robot.
//!
//! - `pwm`: the motor driver's wheel to channel map and the channel writes
//!   that carry wheel commands to it.
//! - `devices`: the command dispatcher that owns the shared bus, decides the
//!   bus operations for each command and reports structured errors, and a
//!   simulated pair of devices that carries those operations out.
//! - `leds`: the state machine behind the addressable LED strip.
//! - `session`: the bookkeeping of web-socket sessions.
//! - `server`: the web-socket server's reply and close-code rules.
//! - `camera`: register encoding for the camera module.

pub mod camera;
pub mod devices;
pub mod leds;
pub mod pwm;
pub mod server;
pub mod session;
