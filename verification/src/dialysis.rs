//! Dialysis device simulator: one reading per tick, with a strictly
//! increasing treatment clock, jittered pressures and flow rates around a
//! scenario-fixed baseline, and an alarm timer drawn only under non-normal
//! scenarios.

use vstd::prelude::*;
use vstd::utf8::encode_utf8;

use crate::rng::{range_draw, range_req, device_seed, seed_for_device, DetRng};
use crate::scenario::{Mode, Scenario, Status};

verus! {

/// Dialysate flow volume, fixed for every reading, in tenths of a unit.
pub const DFV_TENTHS: i32 = 5000;

/// Dialysate flow rate, fixed for every reading, in tenths of a unit.
pub const DFR_TENTHS: i32 = 5000;

/// Ultrafiltration volume, fixed for every reading, in tenths of a unit.
pub const UFV_TENTHS: i32 = 15;

/// Ultrafiltration rate, fixed for every reading, in tenths of a unit.
pub const UFR_TENTHS: i32 = 5;

/// The baseline parameters a dialysis simulator derives from its scenario.
/// Blood-pressure-only scenarios fall back to the type's defaults.
pub struct DialysisBaseline {
    pub vp: int,
    pub bfr: int,
    pub status: Status,
}

/// The scenario table for dialysis devices.
pub open spec fn dialysis_baseline(s: Scenario) -> DialysisBaseline {
    match s {
        Scenario::HighVP => DialysisBaseline { vp: 280, bfr: 350, status: Status::Critical },
        Scenario::LowBFR => DialysisBaseline { vp: 150, bfr: 150, status: Status::Warning },
        _ => DialysisBaseline { vp: 150, bfr: 350, status: Status::Normal },
    }
}

/// Everything that determines a dialysis simulator's future readings: its
/// identity, its scenario, its seed, the draws already made and the treatment
/// clock.
#[verifier::ext_equal]
pub struct DialysisModel {
    pub id: Seq<char>,
    pub scenario: Scenario,
    pub seed: u64,
    pub draws: Seq<(int, int, int)>,
    pub time_in_treatment: int,
}

/// The generated fields of one dialysis tick, together with the draw history
/// after it.
#[verifier::ext_equal]
pub struct DialysisTickOutcome {
    pub vp: int,
    pub bfr: int,
    pub ap: int,
    pub ep: int,
    pub alarm: Option<int>,
    pub time_in_treatment: int,
    pub time_remaining: int,
    pub draws: Seq<(int, int, int)>,
}

/// One tick of the dialysis algorithm: advance the treatment clock by one,
/// jitter the pressures and the blood flow rate around their baselines, and
/// draw a fresh alarm timer whenever the scenario's status is not normal.
pub open spec fn dialysis_tick_outcome(m: DialysisModel) -> DialysisTickOutcome {
    let b = dialysis_baseline(m.scenario);
    let vp = b.vp + range_draw(m.seed, m.draws, -10, 10);
    let h1 = m.draws.push(range_req(-10, 10));
    let bfr = b.bfr + range_draw(m.seed, h1, -5, 5);
    let h2 = h1.push(range_req(-5, 5));
    let ap = range_draw(m.seed, h2, -150, -100);
    let h3 = h2.push(range_req(-150, -100));
    let t = m.time_in_treatment + 1;
    let time_remaining = 240 - t / 60;
    if b.status == Status::Normal {
        let ep = range_draw(m.seed, h3, -50, 50);
        let h4 = h3.push(range_req(-50, 50));
        DialysisTickOutcome {
            vp,
            bfr,
            ap,
            ep,
            alarm: None,
            time_in_treatment: t,
            time_remaining,
            draws: h4,
        }
    } else {
        let alarm = range_draw(m.seed, h3, 1, 30);
        let h4 = h3.push(range_req(1, 30));
        let ep = range_draw(m.seed, h4, -50, 50);
        let h5 = h4.push(range_req(-50, 50));
        DialysisTickOutcome {
            vp,
            bfr,
            ap,
            ep,
            alarm: Some(alarm),
            time_in_treatment: t,
            time_remaining,
            draws: h5,
        }
    }
}

/// The model after one tick: the draw history and the treatment clock
/// advance.
pub open spec fn dialysis_next_model(m: DialysisModel) -> DialysisModel {
    let o = dialysis_tick_outcome(m);
    DialysisModel { draws: o.draws, time_in_treatment: o.time_in_treatment, ..m }
}

/// The outcomes of `n` consecutive ticks from model `m`.
pub open spec fn dialysis_model_run(m: DialysisModel, n: nat) -> Seq<DialysisTickOutcome>
    decreases n,
{
    if n == 0 {
        Seq::empty()
    } else {
        seq![dialysis_tick_outcome(m)] + dialysis_model_run(dialysis_next_model(m), (n - 1) as nat)
    }
}

/// One snapshot of a simulated dialysis device's vitals. The four fixed flow
/// parameters are carried in tenths of a unit, so that every field is an
/// integer; the transport schema shows them as decimals.
#[derive(PartialEq, Debug)]
pub struct DialysisReading {
    pub device_id: String,
    pub timestamp: String,
    pub mode: Mode,
    pub status: Status,
    pub time_in_alarm: Option<i32>,
    pub time_in_treatment: i32,
    pub time_remaining: i32,
    pub dfv_tenths: i32,
    pub dfr_tenths: i32,
    pub ufv_tenths: i32,
    pub ufr_tenths: i32,
    pub bfr: i32,
    pub ap: i32,
    pub vp: i32,
    pub ep: i32,
}

/// A running dialysis device simulation: the scenario-derived baseline, the
/// treatment clock and the deterministic random source, advanced one reading
/// per tick.
pub struct DialysisSimulator {
    device_id: String,
    scenario: Scenario,
    status: Status,
    vp_base: i32,
    bfr_base: i32,
    time_in_treatment: i32,
    rng: DetRng,
}

impl DialysisSimulator {
    /// The simulator's behaviour as a value: what all its future readings are
    /// a function of.
    pub closed spec fn model(&self) -> DialysisModel {
        DialysisModel {
            id: self.device_id@,
            scenario: self.scenario,
            seed: self.rng.spec_seed(),
            draws: self.rng.spec_draws(),
            time_in_treatment: self.time_in_treatment as int,
        }
    }

    /// The simulator's invariant: its seed comes from its device id, its
    /// baseline fields come from its scenario, and the treatment clock never
    /// goes negative.
    pub closed spec fn wf(&self) -> bool {
        let b = dialysis_baseline(self.scenario);
        &&& self.rng.spec_seed() == device_seed(encode_utf8(self.device_id@))
        &&& self.vp_base as int == b.vp
        &&& self.bfr_base as int == b.bfr
        &&& self.status == b.status
        &&& 0 <= self.time_in_treatment
    }

    /// Starts a simulator for one device: the random source is seeded from
    /// the device id, the baseline is fixed by the scenario for the whole
    /// run, and the treatment clock starts at zero.
    pub fn new(device_id: String, scenario: Scenario) -> (r: DialysisSimulator)
        ensures
            r.wf(),
            r.model().id == device_id@,
            r.model().scenario == scenario,
            r.model().draws == Seq::<(int, int, int)>::empty(),
            r.model().time_in_treatment == 0,
    {
        let seed = seed_for_device(&device_id);
        let rng = DetRng::new(seed);
        let mut vp_base: i32 = 150;
        let mut bfr_base: i32 = 350;
        let mut status = Status::Normal;
        match scenario {
            Scenario::HighVP => {
                vp_base = 280;
                status = Status::Critical;
            },
            Scenario::LowBFR => {
                bfr_base = 150;
                status = Status::Warning;
            },
            _ => {},
        }
        DialysisSimulator {
            device_id,
            scenario,
            status,
            vp_base,
            bfr_base,
            time_in_treatment: 0,
            rng,
        }
    }

    /// The current value of the treatment clock: the number of ticks taken.
    pub fn treatment_time(&self) -> (r: i32)
        ensures
            r as int == self.model().time_in_treatment,
    {
        self.time_in_treatment
    }

    /// Generates the reading of one tick, advancing the treatment clock and
    /// the random source.
    ///
    /// Every generated field is pinned to the tick outcome of the simulator's
    /// model, so a run's readings are a function of device id, scenario and
    /// tick count alone; the timestamp is the caller's. The treatment clock
    /// grows by exactly one; the remaining time follows the clock and is not
    /// clamped; the alarm timer is absent exactly under a normal status;
    /// under the low-blood-flow scenario every blood flow value lies in
    /// `[145, 155]` and the status is warning.
    pub fn tick(&mut self, timestamp: String) -> (r: DialysisReading)
        requires
            old(self).wf(),
            old(self).model().time_in_treatment < i32::MAX,
        ensures
            final(self).wf(),
            final(self).model() == dialysis_next_model(old(self).model()),
            ({
                let o = dialysis_tick_outcome(old(self).model());
                &&& r.vp as int == o.vp
                &&& r.bfr as int == o.bfr
                &&& r.ap as int == o.ap
                &&& r.ep as int == o.ep
                &&& r.time_in_treatment as int == o.time_in_treatment
                &&& r.time_remaining as int == o.time_remaining
                &&& r.time_in_alarm == (match o.alarm {
                    Some(v) => Some(v as i32),
                    None => None::<i32>,
                })
            }),
            r.device_id@ == old(self).model().id,
            r.timestamp == timestamp,
            r.mode == Mode::Hd,
            r.status == dialysis_baseline(old(self).model().scenario).status,
            r.time_in_treatment as int == old(self).model().time_in_treatment + 1,
            r.time_remaining as int == 240 - (r.time_in_treatment as int) / 60,
            r.dfv_tenths == DFV_TENTHS,
            r.dfr_tenths == DFR_TENTHS,
            r.ufv_tenths == UFV_TENTHS,
            r.ufr_tenths == UFR_TENTHS,
            (r.time_in_alarm is None) <==> dialysis_baseline(old(self).model().scenario).status
                == Status::Normal,
            r.time_in_alarm is Some ==> 1 <= r.time_in_alarm->0 && r.time_in_alarm->0 < 30,
            ({
                let b = dialysis_baseline(old(self).model().scenario);
                &&& b.vp - 10 <= r.vp as int
                &&& (r.vp as int) < b.vp + 10
                &&& b.bfr - 5 <= r.bfr as int
                &&& (r.bfr as int) < b.bfr + 5
                &&& -150 <= r.ap < -100
                &&& -50 <= r.ep < 50
            }),
            old(self).model().scenario == Scenario::LowBFR ==> 145 <= r.bfr <= 155 && r.status
                == Status::Warning,
    {
        let vp = self.vp_base + self.rng.range_i32(-10, 10);
        let bfr = self.bfr_base + self.rng.range_i32(-5, 5);
        let ap = self.rng.range_i32(-150, -100);
        self.time_in_treatment = self.time_in_treatment + 1;
        let time_remaining = 240 - self.time_in_treatment / 60;
        let time_in_alarm: Option<i32> = match self.status {
            Status::Normal => None,
            _ => Some(self.rng.range_i32(1, 30)),
        };
        let ep = self.rng.range_i32(-50, 50);
        let r = DialysisReading {
            device_id: self.device_id.clone(),
            timestamp,
            mode: Mode::Hd,
            status: self.status,
            time_in_alarm,
            time_in_treatment: self.time_in_treatment,
            time_remaining,
            dfv_tenths: DFV_TENTHS,
            dfr_tenths: DFR_TENTHS,
            ufv_tenths: UFV_TENTHS,
            ufr_tenths: UFR_TENTHS,
            bfr,
            ap,
            vp,
            ep,
        };
        proof {
            assert(self.model() =~= dialysis_next_model(old(self).model()));
        }
        r
    }
}

/// Determinism: two dialysis simulators alike in device id, scenario, draw
/// history and treatment clock generate the same outcomes for any number of
/// further ticks. Everything a reading carries besides its timestamp is a
/// function of those.
pub proof fn lemma_dialysis_determinism(a: &DialysisSimulator, b: &DialysisSimulator, n: nat)
    requires
        a.wf(),
        b.wf(),
        a.model().id == b.model().id,
        a.model().scenario == b.model().scenario,
        a.model().draws == b.model().draws,
        a.model().time_in_treatment == b.model().time_in_treatment,
    ensures
        dialysis_model_run(a.model(), n) == dialysis_model_run(b.model(), n),
{
    assert(a.model().seed == b.model().seed);
    assert(a.model() =~= b.model());
}

/// A run of `n` ticks yields exactly `n` outcomes.
pub proof fn lemma_dialysis_run_len(m: DialysisModel, n: nat)
    ensures
        dialysis_model_run(m, n).len() == n,
    decreases n,
{
    if n > 0 {
        lemma_dialysis_run_len(dialysis_next_model(m), (n - 1) as nat);
    }
}

/// Monotonic treatment clock: across any run, the `i`-th reading's treatment
/// time is the starting clock plus `i + 1`, so the clock strictly increases
/// by one each tick and never resets.
pub proof fn lemma_treatment_clock_monotonic(m: DialysisModel, n: nat, i: int)
    requires
        0 <= i < n,
    ensures
        dialysis_model_run(m, n)[i].time_in_treatment == m.time_in_treatment + i + 1,
    decreases n,
{
    lemma_dialysis_run_len(m, n);
    if i == 0 {
        assert(dialysis_model_run(m, n)[0] == dialysis_tick_outcome(m));
    } else {
        lemma_treatment_clock_monotonic(dialysis_next_model(m), (n - 1) as nat, i - 1);
        assert(dialysis_model_run(m, n)[i] == dialysis_model_run(
            dialysis_next_model(m),
            (n - 1) as nat,
        )[i - 1]);
    }
}

/// Each tick's treatment time is exactly one more than the previous tick's.
pub proof fn lemma_treatment_clock_increases(m: DialysisModel, n: nat, i: int)
    requires
        0 <= i,
        i + 1 < n,
    ensures
        dialysis_model_run(m, n)[i + 1].time_in_treatment == dialysis_model_run(
            m,
            n,
        )[i].time_in_treatment + 1,
{
    lemma_treatment_clock_monotonic(m, n, i);
    lemma_treatment_clock_monotonic(m, n, i + 1);
}

} // verus!
