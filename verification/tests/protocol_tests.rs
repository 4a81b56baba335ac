use iot_mock::command::{config_from_parts, control_topic, telemetry_topic};
use iot_mock::dialysis::DialysisSimulator;
use iot_mock::registry::Registry;
use iot_mock::rng::seed_for_device;
use iot_mock::scenario::{
    device_type_of_tag, scenario_of_tag, status_label, DeviceType, Scenario, Status,
};

#[test]
fn scenario_tags_parse_to_their_scenarios() {
    assert_eq!(scenario_of_tag(&"normal".to_string()), Some(Scenario::Normal));
    assert_eq!(scenario_of_tag(&"high_systolic".to_string()), Some(Scenario::HighSystolic));
    assert_eq!(scenario_of_tag(&"low_diastolic".to_string()), Some(Scenario::LowDiastolic));
    assert_eq!(
        scenario_of_tag(&"irregular_heartbeat".to_string()),
        Some(Scenario::IrregularHeartbeat)
    );
    assert_eq!(scenario_of_tag(&"high_vp".to_string()), Some(Scenario::HighVP));
    assert_eq!(scenario_of_tag(&"low_bfr".to_string()), Some(Scenario::LowBFR));
    assert_eq!(scenario_of_tag(&"HIGH_VP".to_string()), None);
    assert_eq!(scenario_of_tag(&"".to_string()), None);
    assert_eq!(scenario_of_tag(&"bogus".to_string()), None);
}

#[test]
fn device_type_tags_parse_to_their_types() {
    assert_eq!(device_type_of_tag(&"bp".to_string()), Some(DeviceType::BP));
    assert_eq!(device_type_of_tag(&"dialysis".to_string()), Some(DeviceType::Dialysis));
    assert_eq!(device_type_of_tag(&"BP".to_string()), None);
    assert_eq!(device_type_of_tag(&"pump".to_string()), None);
}

#[test]
fn config_needs_both_tags_valid() {
    let config = config_from_parts(
        "bp_001".to_string(),
        &"high_systolic".to_string(),
        &"bp".to_string(),
    )
    .expect("both tags are valid");
    assert_eq!(config.device_id, "bp_001");
    assert_eq!(config.scenario, Scenario::HighSystolic);
    assert_eq!(config.device_type, DeviceType::BP);

    assert!(config_from_parts("x".to_string(), &"nope".to_string(), &"bp".to_string()).is_none());
    assert!(
        config_from_parts("x".to_string(), &"normal".to_string(), &"pacemaker".to_string())
            .is_none()
    );
}

#[test]
fn topics_match_the_transport_layout() {
    assert_eq!(control_topic(), "ankaa/simulator/control");
    assert_eq!(telemetry_topic(&"dialysis_009".to_string()), "devices/dialysis_009/telemetry");
    assert_eq!(telemetry_topic(&"".to_string()), "devices//telemetry");
}

#[test]
fn status_labels_match_the_schema() {
    assert_eq!(status_label(Status::Normal), "normal");
    assert_eq!(status_label(Status::Warning), "warning");
    assert_eq!(status_label(Status::Critical), "critical");
}

#[test]
fn seed_is_the_byte_sum_of_the_device_id() {
    assert_eq!(seed_for_device(&"abc".to_string()), 97 + 98 + 99);
    assert_eq!(seed_for_device(&"".to_string()), 0);
    assert_eq!(seed_for_device(&"bp_001".to_string()), 98 + 112 + 95 + 48 + 48 + 49);
}

#[test]
fn end_to_end_low_bfr_run() {
    let config = config_from_parts(
        "dialysis_009".to_string(),
        &"low_bfr".to_string(),
        &"dialysis".to_string(),
    )
    .expect("valid start entry");
    assert_eq!(config.device_type, DeviceType::Dialysis);
    assert_eq!(telemetry_topic(&config.device_id), "devices/dialysis_009/telemetry");

    let mut reg: Registry<i32> = Registry::new();
    assert_eq!(reg.insert(config.device_id.clone(), 7), None);

    let mut sim = DialysisSimulator::new(config.device_id.clone(), config.scenario);
    let mut readings = Vec::new();
    for i in 0..5 {
        readings.push(sim.tick(format!("t{}", i)));
    }
    assert_eq!(readings.len(), 5);
    for r in &readings {
        assert_eq!(r.status, Status::Warning);
        assert!(145 <= r.bfr && r.bfr <= 155);
        assert_eq!(r.device_id, "dialysis_009");
    }

    let cancelled = reg.apply_stop(&vec!["dialysis_009".to_string()]);
    assert_eq!(cancelled, vec![7]);
    assert_eq!(reg.len(), 0);
    assert!(!reg.contains_id(&"dialysis_009".to_string()));
}
