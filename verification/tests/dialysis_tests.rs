use iot_mock::dialysis::DialysisSimulator;
use iot_mock::scenario::{Scenario, Status};

#[test]
fn treatment_clock_is_monotonic() {
    let mut sim = DialysisSimulator::new("dialysis_001".to_string(), Scenario::Normal);
    assert_eq!(sim.treatment_time(), 0);
    let mut previous = 0;
    for i in 0..100 {
        let r = sim.tick(format!("t{}", i));
        assert_eq!(r.time_in_treatment, previous + 1);
        previous = r.time_in_treatment;
        assert_eq!(sim.treatment_time(), previous);
    }
}

#[test]
fn time_remaining_follows_the_clock() {
    let mut sim = DialysisSimulator::new("dialysis_002".to_string(), Scenario::Normal);
    for i in 0..150 {
        let r = sim.tick(format!("t{}", i));
        assert_eq!(r.time_remaining, 240 - r.time_in_treatment / 60);
    }
}

#[test]
fn dialysis_determinism_same_id_same_scenario() {
    let mut a = DialysisSimulator::new("dialysis_042".to_string(), Scenario::HighVP);
    let mut b = DialysisSimulator::new("dialysis_042".to_string(), Scenario::HighVP);
    for i in 0..50 {
        let ts = format!("2024-01-01T00:00:{:02}Z", i % 60);
        let ra = a.tick(ts.clone());
        let rb = b.tick(ts);
        assert_eq!(ra, rb);
    }
}

#[test]
fn normal_status_has_no_alarm_timer() {
    let mut sim = DialysisSimulator::new("dialysis_003".to_string(), Scenario::Normal);
    for i in 0..50 {
        let r = sim.tick(format!("t{}", i));
        assert_eq!(r.status, Status::Normal);
        assert_eq!(r.time_in_alarm, None);
    }
}

#[test]
fn non_normal_status_draws_fresh_alarm_timer() {
    let mut sim = DialysisSimulator::new("dialysis_004".to_string(), Scenario::HighVP);
    for i in 0..50 {
        let r = sim.tick(format!("t{}", i));
        assert_eq!(r.status, Status::Critical);
        let alarm = r.time_in_alarm.expect("non-normal status must carry an alarm timer");
        assert!((1..30).contains(&alarm));
    }
}

#[test]
fn high_vp_bounds() {
    let mut sim = DialysisSimulator::new("dialysis_005".to_string(), Scenario::HighVP);
    for i in 0..50 {
        let r = sim.tick(format!("t{}", i));
        assert!(270 <= r.vp && r.vp < 290);
        assert!(345 <= r.bfr && r.bfr < 355);
        assert!(-150 <= r.ap && r.ap < -100);
        assert!(-50 <= r.ep && r.ep < 50);
    }
}

#[test]
fn fixed_flow_parameters_every_tick() {
    let mut sim = DialysisSimulator::new("dialysis_006".to_string(), Scenario::LowBFR);
    for i in 0..10 {
        let r = sim.tick(format!("t{}", i));
        assert_eq!(r.dfv_tenths, 5000);
        assert_eq!(r.dfr_tenths, 5000);
        assert_eq!(r.ufv_tenths, 15);
        assert_eq!(r.ufr_tenths, 5);
    }
}

#[test]
fn dialysis_jitter_actually_varies() {
    let mut sim = DialysisSimulator::new("dialysis_007".to_string(), Scenario::Normal);
    let mut seen = Vec::new();
    for i in 0..100 {
        let r = sim.tick(format!("t{}", i));
        if !seen.contains(&r.vp) {
            seen.push(r.vp);
        }
    }
    assert!(seen.len() >= 3);
}

#[test]
fn bp_scenario_on_dialysis_device_falls_back_to_defaults() {
    let mut sim = DialysisSimulator::new("dialysis_008".to_string(), Scenario::HighSystolic);
    let r = sim.tick("t0".to_string());
    assert_eq!(r.status, Status::Normal);
    assert!(140 <= r.vp && r.vp < 160);
    assert!(345 <= r.bfr && r.bfr < 355);
    assert_eq!(iot_mock::scenario::mode_label(r.mode), "HD");
}
