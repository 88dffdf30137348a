//! Sampling a single-wire temperature sensor and relaying the readings to a
//! telemetry collector: the decisions of the agent, verified.
//!
//! The library holds no hardware. It decodes what the sensor sent, builds
//! the payloads, and says step by step what to do on the bus, on the
//! channel and in the loop; the firmware around it does it.

pub mod agent;
pub mod bus;
pub mod channel;
pub mod crc;
pub mod json;
pub mod message;
pub mod scratchpad;
pub mod temperature;
