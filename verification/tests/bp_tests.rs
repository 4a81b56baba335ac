use iot_mock::bp::{mean_arterial_pressure, pulse_pressure, BpSimulator};
use iot_mock::scenario::{Scenario, Status};

#[test]
fn derived_fields_for_120_over_80() {
    assert_eq!(mean_arterial_pressure(120, 80), 93);
    assert_eq!(pulse_pressure(120, 80), 40);
}

#[test]
fn derived_fields_hold_on_generated_readings() {
    let mut sim = BpSimulator::new("bp_007".to_string(), Scenario::Normal);
    for i in 0..50 {
        let r = sim.tick(format!("t{}", i));
        assert_eq!(r.mean_arterial_pressure, (2 * r.diastolic + r.systolic) / 3);
        assert_eq!(r.pulse_pressure, r.systolic - r.diastolic);
    }
}

#[test]
fn bp_determinism_same_id_same_scenario() {
    let mut a = BpSimulator::new("bp_042".to_string(), Scenario::IrregularHeartbeat);
    let mut b = BpSimulator::new("bp_042".to_string(), Scenario::IrregularHeartbeat);
    for i in 0..50 {
        let ts = format!("2024-01-01T00:00:{:02}Z", i % 60);
        let ra = a.tick(ts.clone());
        let rb = b.tick(ts);
        assert_eq!(ra, rb);
    }
}

#[test]
fn high_systolic_bounds_and_status() {
    let mut sim = BpSimulator::new("bp_hs".to_string(), Scenario::HighSystolic);
    for i in 0..100 {
        let r = sim.tick(format!("t{}", i));
        assert!(182 <= r.systolic && r.systolic <= 188);
        assert_eq!(r.status, Status::Critical);
        assert!(93 <= r.diastolic && r.diastolic <= 97);
        assert!(88 <= r.heart_rate && r.heart_rate <= 92);
        assert!(!r.irregular_heartbeat);
    }
}

#[test]
fn normal_scenario_baseline_bounds() {
    let mut sim = BpSimulator::new("bp_norm".to_string(), Scenario::Normal);
    for i in 0..50 {
        let r = sim.tick(format!("t{}", i));
        assert!(117 <= r.systolic && r.systolic <= 123);
        assert!(78 <= r.diastolic && r.diastolic <= 82);
        assert!(68 <= r.heart_rate && r.heart_rate <= 72);
        assert_eq!(r.status, Status::Normal);
        assert!(!r.irregular_heartbeat);
    }
}

#[test]
fn irregular_scenario_flags_every_reading() {
    let mut sim = BpSimulator::new("bp_irr".to_string(), Scenario::IrregularHeartbeat);
    for i in 0..50 {
        let r = sim.tick(format!("t{}", i));
        assert!(r.irregular_heartbeat);
        assert_eq!(r.status, Status::Warning);
        // base 85, jitter [-2, 2], spike adds at most 30
        assert!(83 <= r.heart_rate && r.heart_rate <= 117);
    }
}

#[test]
fn dialysis_scenario_on_bp_device_falls_back_to_defaults() {
    let mut sim = BpSimulator::new("bp_mix".to_string(), Scenario::HighVP);
    let r = sim.tick("t0".to_string());
    assert!(117 <= r.systolic && r.systolic <= 123);
    assert_eq!(r.status, Status::Normal);
}

#[test]
fn bp_jitter_actually_varies() {
    let mut sim = BpSimulator::new("bp_var".to_string(), Scenario::Normal);
    let mut seen = Vec::new();
    for i in 0..100 {
        let r = sim.tick(format!("t{}", i));
        if !seen.contains(&r.systolic) {
            seen.push(r.systolic);
        }
    }
    assert!(seen.len() >= 3);
}

#[test]
fn reading_carries_device_id_timestamp_and_mode() {
    let mut sim = BpSimulator::new("bp_001".to_string(), Scenario::Normal);
    let r = sim.tick("2024-01-01T00:00:00Z".to_string());
    assert_eq!(r.device_id, "bp_001");
    assert_eq!(r.timestamp, "2024-01-01T00:00:00Z");
    assert_eq!(iot_mock::scenario::mode_label(r.mode), "Auto");
}

#[test]
fn irregular_spikes_eventually_occur() {
    // base 85, jitter [-2, 2]: without a spike the heart rate never exceeds 87
    let mut sim = BpSimulator::new("bp_spiky".to_string(), Scenario::IrregularHeartbeat);
    let mut spiked = false;
    for i in 0..300 {
        let r = sim.tick(format!("t{}", i));
        if r.heart_rate > 95 {
            spiked = true;
        }
    }
    assert!(spiked);
}

#[test]
fn different_ids_give_different_streams() {
    let mut a = BpSimulator::new("bp_a".to_string(), Scenario::Normal);
    let mut b = BpSimulator::new("bp_b".to_string(), Scenario::Normal);
    let mut differ = false;
    for i in 0..50 {
        let ts = format!("t{}", i);
        let ra = a.tick(ts.clone());
        let rb = b.tick(ts);
        if ra.systolic != rb.systolic || ra.diastolic != rb.diastolic
            || ra.heart_rate != rb.heart_rate
        {
            differ = true;
        }
    }
    assert!(differ);
}
