//! A command-driven synthetic telemetry generator for simulated medical
//! devices.
//!
//! The library holds the engine: the control-command protocol and its closed
//! tag vocabularies, the registry tracking which simulated devices are
//! running, and the scenario-conditioned generators that synthesize each
//! device's readings tick by tick from a random source seeded by the device
//! id. The surrounding process wires these to a publish/subscribe transport:
//! it decodes inbound control messages, spawns one task per started device,
//! and publishes each generated reading to the device's telemetry topic.

pub mod bp;
pub mod command;
pub mod dialysis;
pub mod registry;
pub mod rng;
pub mod scenario;
