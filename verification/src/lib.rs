//! Control core of a remotely piloted vehicle.
//!
//! The library decodes steering/throttle datagrams, keeps only the freshest
//! valid command, fails safe to a neutral command when input goes stale,
//! maps command axes to PWM duty-cycle ticks for the actuator driver, and
//! drives a three-state recovery machine for the cellular uplink.

pub mod actuator;
pub mod axis;
pub mod codec;
pub mod device;
pub mod intake;
pub mod link;
pub mod watchdog;
