//! Control core of a push-button stopwatch appliance.
//!
//! The library holds the decision logic of the periodic control loop: the
//! input classifier that turns raw button samples into release edges with a
//! measured press duration, the three-state timer machine that owns the
//! elapsed-milliseconds accumulator, and the fixed-width display formatting.
//! The driving loop samples the clock and the button, hands both to
//! [`hmi_manager::HmiManager::update`], and forwards the returned payloads to
//! the LED and display sinks.

pub mod display;
pub mod hmi_manager;
pub mod input;
pub mod laws;
