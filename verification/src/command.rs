//! The control-command protocol: the decoded command shapes, validation of
//! the raw wire fields into them, and the topic strings the transport uses.

use vstd::prelude::*;
use vstd::string::StringExecFns;

use crate::scenario::{
    device_type_of_tag, scenario_of_tag, spec_device_type_of_tag, spec_scenario_of_tag, DeviceType,
    Scenario,
};

verus! {

/// What one start entry asks for: which device to simulate, under which
/// scenario, with which algorithm. Immutable for the lifetime of one
/// simulation run.
#[derive(Debug)]
pub struct DeviceConfig {
    pub device_id: String,
    pub scenario: Scenario,
    pub device_type: DeviceType,
}

/// A decoded control command: start a simulator per listed config, or stop
/// the simulators of the listed device ids. Transient, never persisted.
#[derive(Debug)]
pub enum SimulatorCommand {
    Start { start_simulations: Vec<DeviceConfig> },
    Stop { stop_simulations: Vec<String> },
}

/// Validates the raw wire fields of one start entry. Returns the config
/// exactly when both tags belong to their closed sets; a command holding an
/// entry outside them is malformed and gets discarded whole.
pub fn config_from_parts(device_id: String, scenario_tag: &String, device_type_tag: &String) -> (r:
    Option<DeviceConfig>)
    ensures
        ({
            let s = spec_scenario_of_tag(scenario_tag@);
            let t = spec_device_type_of_tag(device_type_tag@);
            match r {
                Some(c) => s is Some && t is Some && c.device_id@ == device_id@ && c.scenario
                    == s->0 && c.device_type == t->0,
                None => s is None || t is None,
            }
        }),
{
    let scenario_opt = scenario_of_tag(scenario_tag);
    let device_type_opt = device_type_of_tag(device_type_tag);
    match (scenario_opt, device_type_opt) {
        (Some(scenario), Some(device_type)) => Some(
            DeviceConfig { device_id, scenario, device_type },
        ),
        _ => None,
    }
}

/// The fixed topic all control commands arrive on.
pub fn control_topic() -> (r: String)
    ensures
        r@ == "ankaa/simulator/control"@,
{
    "ankaa/simulator/control".to_owned()
}

/// The telemetry topic one device publishes its readings to.
pub fn telemetry_topic(device_id: &String) -> (r: String)
    ensures
        r@ == "devices/"@ + device_id@ + "/telemetry"@,
{
    let mut topic = String::from_str("devices/");
    topic.append(device_id.as_str());
    topic.append("/telemetry");
    topic
}

} // verus!
