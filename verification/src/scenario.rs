//! The closed vocabularies of the control protocol: scenarios, device types,
//! severity statuses and operating modes, with the lower-snake-case tags they
//! carry on the wire.

use vstd::prelude::*;

verus! {

/// A fixed label selecting a baseline parameter set and severity
/// classification for one simulated device's entire run.
#[derive(Clone, Copy, PartialEq, Eq, Structural, Debug)]
pub enum Scenario {
    Normal,
    HighSystolic,
    LowDiastolic,
    IrregularHeartbeat,
    HighVP,
    LowBFR,
}

/// Which generation algorithm and reading schema a simulator uses.
#[derive(Clone, Copy, PartialEq, Eq, Structural, Debug)]
pub enum DeviceType {
    BP,
    Dialysis,
}

/// Severity classification attached to every reading of a simulated device,
/// fixed for the whole run by the scenario the device was started with.
#[derive(Clone, Copy, PartialEq, Eq, Structural, Debug)]
pub enum Status {
    Normal,
    Warning,
    Critical,
}

/// The constant operating-mode label of a reading: `Auto` for blood-pressure
/// readings, `Hd` (haemodialysis) for dialysis readings.
#[derive(Clone, Copy, PartialEq, Eq, Structural, Debug)]
pub enum Mode {
    Auto,
    Hd,
}

/// The wire tag of each scenario.
pub open spec fn spec_scenario_tag(s: Scenario) -> Seq<char> {
    match s {
        Scenario::Normal => "normal"@,
        Scenario::HighSystolic => "high_systolic"@,
        Scenario::LowDiastolic => "low_diastolic"@,
        Scenario::IrregularHeartbeat => "irregular_heartbeat"@,
        Scenario::HighVP => "high_vp"@,
        Scenario::LowBFR => "low_bfr"@,
    }
}

/// The scenario a wire tag names, if any.
pub open spec fn spec_scenario_of_tag(tag: Seq<char>) -> Option<Scenario> {
    if tag == spec_scenario_tag(Scenario::Normal) {
        Some(Scenario::Normal)
    } else if tag == spec_scenario_tag(Scenario::HighSystolic) {
        Some(Scenario::HighSystolic)
    } else if tag == spec_scenario_tag(Scenario::LowDiastolic) {
        Some(Scenario::LowDiastolic)
    } else if tag == spec_scenario_tag(Scenario::IrregularHeartbeat) {
        Some(Scenario::IrregularHeartbeat)
    } else if tag == spec_scenario_tag(Scenario::HighVP) {
        Some(Scenario::HighVP)
    } else if tag == spec_scenario_tag(Scenario::LowBFR) {
        Some(Scenario::LowBFR)
    } else {
        None
    }
}

/// The wire tag of each device type.
pub open spec fn spec_device_type_tag(t: DeviceType) -> Seq<char> {
    match t {
        DeviceType::BP => "bp"@,
        DeviceType::Dialysis => "dialysis"@,
    }
}

/// The device type a wire tag names, if any.
pub open spec fn spec_device_type_of_tag(tag: Seq<char>) -> Option<DeviceType> {
    if tag == spec_device_type_tag(DeviceType::BP) {
        Some(DeviceType::BP)
    } else if tag == spec_device_type_tag(DeviceType::Dialysis) {
        Some(DeviceType::Dialysis)
    } else {
        None
    }
}

/// The label a reading carries for each status.
pub open spec fn spec_status_label(s: Status) -> Seq<char> {
    match s {
        Status::Normal => "normal"@,
        Status::Warning => "warning"@,
        Status::Critical => "critical"@,
    }
}

/// The label a reading carries for each mode.
pub open spec fn spec_mode_label(m: Mode) -> Seq<char> {
    match m {
        Mode::Auto => "Auto"@,
        Mode::Hd => "HD"@,
    }
}

/// True when `tag` spells exactly the literal `lit`.
fn tag_matches(tag: &String, lit: &str) -> (r: bool)
    ensures
        r == (tag@ == lit@),
{
    let owned: String = lit.to_owned();
    *tag == owned
}

/// Parses a scenario wire tag; `None` on any tag outside the closed set.
pub fn scenario_of_tag(tag: &String) -> (r: Option<Scenario>)
    ensures
        r == spec_scenario_of_tag(tag@),
{
    if tag_matches(tag, "normal") {
        Some(Scenario::Normal)
    } else if tag_matches(tag, "high_systolic") {
        Some(Scenario::HighSystolic)
    } else if tag_matches(tag, "low_diastolic") {
        Some(Scenario::LowDiastolic)
    } else if tag_matches(tag, "irregular_heartbeat") {
        Some(Scenario::IrregularHeartbeat)
    } else if tag_matches(tag, "high_vp") {
        Some(Scenario::HighVP)
    } else if tag_matches(tag, "low_bfr") {
        Some(Scenario::LowBFR)
    } else {
        None
    }
}

/// Parses a device-type wire tag; `None` on any tag outside the closed set.
pub fn device_type_of_tag(tag: &String) -> (r: Option<DeviceType>)
    ensures
        r == spec_device_type_of_tag(tag@),
{
    if tag_matches(tag, "bp") {
        Some(DeviceType::BP)
    } else if tag_matches(tag, "dialysis") {
        Some(DeviceType::Dialysis)
    } else {
        None
    }
}

/// The label a reading carries for its status.
pub fn status_label(s: Status) -> (r: String)
    ensures
        r@ == spec_status_label(s),
{
    match s {
        Status::Normal => "normal".to_owned(),
        Status::Warning => "warning".to_owned(),
        Status::Critical => "critical".to_owned(),
    }
}

/// The label a reading carries for its mode.
pub fn mode_label(m: Mode) -> (r: String)
    ensures
        r@ == spec_mode_label(m),
{
    match m {
        Mode::Auto => "Auto".to_owned(),
        Mode::Hd => "HD".to_owned(),
    }
}

/// Every scenario's tag parses back to that scenario: the closed set has no
/// two scenarios sharing a tag.
pub proof fn lemma_scenario_tag_round_trip(s: Scenario)
    ensures
        spec_scenario_of_tag(spec_scenario_tag(s)) == Some(s),
{
    reveal_strlit("normal");
    reveal_strlit("high_systolic");
    reveal_strlit("low_diastolic");
    reveal_strlit("irregular_heartbeat");
    reveal_strlit("high_vp");
    reveal_strlit("low_bfr");
    assert("normal"@.len() == 6);
    assert("high_systolic"@.len() == 13);
    assert("low_diastolic"@.len() == 13);
    assert("irregular_heartbeat"@.len() == 19);
    assert("high_vp"@.len() == 7);
    assert("low_bfr"@.len() == 7);
    assert("high_systolic"@[0] != "low_diastolic"@[0]);
    assert("high_vp"@[0] != "low_bfr"@[0]);
}

/// Every device type's tag parses back to that device type.
pub proof fn lemma_device_type_tag_round_trip(t: DeviceType)
    ensures
        spec_device_type_of_tag(spec_device_type_tag(t)) == Some(t),
{
    reveal_strlit("bp");
    reveal_strlit("dialysis");
    assert("bp"@.len() == 2);
    assert("dialysis"@.len() == 8);
}

} // verus!
