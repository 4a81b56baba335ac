//! Blood-pressure device simulator: one reading per tick, jittered around a
//! scenario-fixed baseline, with derived pressure fields.

use vstd::prelude::*;
use vstd::utf8::encode_utf8;

use crate::rng::{
    range_incl_draw, range_incl_req, ratio_draw, ratio_req, device_seed, seed_for_device, DetRng,
};
use crate::scenario::{Mode, Scenario, Status};

verus! {

/// The baseline parameters a blood-pressure simulator derives from its
/// scenario. Dialysis-only scenarios fall back to the type's defaults.
pub struct BpBaseline {
    pub systolic: int,
    pub diastolic: int,
    pub heart_rate: int,
    pub irregular: bool,
    pub status: Status,
}

/// The scenario table for blood-pressure devices.
pub open spec fn bp_baseline(s: Scenario) -> BpBaseline {
    match s {
        Scenario::HighSystolic => BpBaseline {
            systolic: 185,
            diastolic: 95,
            heart_rate: 90,
            irregular: false,
            status: Status::Critical,
        },
        Scenario::LowDiastolic => BpBaseline {
            systolic: 95,
            diastolic: 50,
            heart_rate: 85,
            irregular: false,
            status: Status::Warning,
        },
        Scenario::IrregularHeartbeat => BpBaseline {
            systolic: 120,
            diastolic: 80,
            heart_rate: 85,
            irregular: true,
            status: Status::Warning,
        },
        _ => BpBaseline {
            systolic: 120,
            diastolic: 80,
            heart_rate: 70,
            irregular: false,
            status: Status::Normal,
        },
    }
}

/// Everything that determines a blood-pressure simulator's future readings:
/// its identity, its scenario, its seed and the draws already made.
#[verifier::ext_equal]
pub struct BpModel {
    pub id: Seq<char>,
    pub scenario: Scenario,
    pub seed: u64,
    pub draws: Seq<(int, int, int)>,
}

/// The generated fields of one blood-pressure tick, together with the draw
/// history after it.
#[verifier::ext_equal]
pub struct BpTickOutcome {
    pub systolic: int,
    pub diastolic: int,
    pub heart_rate: int,
    pub irregular: bool,
    pub draws: Seq<(int, int, int)>,
}

/// One tick of the blood-pressure algorithm: jitter each vital around its
/// baseline; under an irregular-rhythm scenario, with odds one in five, spike
/// the heart rate further.
pub open spec fn bp_tick_outcome(m: BpModel) -> BpTickOutcome {
    let b = bp_baseline(m.scenario);
    let systolic = b.systolic + range_incl_draw(m.seed, m.draws, -3, 3);
    let h1 = m.draws.push(range_incl_req(-3, 3));
    let diastolic = b.diastolic + range_incl_draw(m.seed, h1, -2, 2);
    let h2 = h1.push(range_incl_req(-2, 2));
    let heart_rate = b.heart_rate + range_incl_draw(m.seed, h2, -2, 2);
    let h3 = h2.push(range_incl_req(-2, 2));
    if b.irregular {
        let spike = ratio_draw(m.seed, h3, 1, 5);
        let h4 = h3.push(ratio_req(1, 5));
        if spike {
            let extra = range_incl_draw(m.seed, h4, 20, 30);
            let h5 = h4.push(range_incl_req(20, 30));
            BpTickOutcome {
                systolic,
                diastolic,
                heart_rate: heart_rate + extra,
                irregular: true,
                draws: h5,
            }
        } else {
            BpTickOutcome { systolic, diastolic, heart_rate, irregular: true, draws: h4 }
        }
    } else {
        BpTickOutcome { systolic, diastolic, heart_rate, irregular: false, draws: h3 }
    }
}

/// The model after one tick: only the draw history advances.
pub open spec fn bp_next_model(m: BpModel) -> BpModel {
    BpModel { draws: bp_tick_outcome(m).draws, ..m }
}

/// The outcomes of `n` consecutive ticks from model `m`.
pub open spec fn bp_model_run(m: BpModel, n: nat) -> Seq<BpTickOutcome>
    decreases n,
{
    if n == 0 {
        Seq::empty()
    } else {
        seq![bp_tick_outcome(m)] + bp_model_run(bp_next_model(m), (n - 1) as nat)
    }
}

/// One snapshot of a simulated blood-pressure device's vitals.
#[derive(PartialEq, Debug)]
pub struct BpReading {
    pub device_id: String,
    pub timestamp: String,
    pub mode: Mode,
    pub status: Status,
    pub systolic: i32,
    pub diastolic: i32,
    pub heart_rate: i32,
    pub mean_arterial_pressure: i32,
    pub pulse_pressure: i32,
    pub irregular_heartbeat: bool,
}

/// The derived mean arterial pressure: one third of twice the diastolic plus
/// the systolic value, truncated to an integer.
pub fn mean_arterial_pressure(systolic: i32, diastolic: i32) -> (r: i32)
    requires
        0 <= systolic,
        0 <= diastolic,
        2 * diastolic + systolic <= i32::MAX,
    ensures
        r == (2 * diastolic + systolic) as int / 3,
{
    (2 * diastolic + systolic) / 3
}

/// The derived pulse pressure: systolic minus diastolic.
pub fn pulse_pressure(systolic: i32, diastolic: i32) -> (r: i32)
    requires
        i32::MIN <= systolic - diastolic <= i32::MAX,
    ensures
        r == systolic - diastolic,
{
    systolic - diastolic
}

/// A running blood-pressure device simulation: the scenario-derived baseline
/// and the deterministic random source, advanced one reading per tick.
pub struct BpSimulator {
    device_id: String,
    scenario: Scenario,
    status: Status,
    systolic_base: i32,
    diastolic_base: i32,
    heart_rate_base: i32,
    irregular_rhythm: bool,
    rng: DetRng,
}

impl BpSimulator {
    /// The simulator's behaviour as a value: what all its future readings are
    /// a function of.
    pub closed spec fn model(&self) -> BpModel {
        BpModel {
            id: self.device_id@,
            scenario: self.scenario,
            seed: self.rng.spec_seed(),
            draws: self.rng.spec_draws(),
        }
    }

    /// The simulator's invariant: its seed comes from its device id and its
    /// baseline fields come from its scenario.
    pub closed spec fn wf(&self) -> bool {
        let b = bp_baseline(self.scenario);
        &&& self.rng.spec_seed() == device_seed(encode_utf8(self.device_id@))
        &&& self.systolic_base as int == b.systolic
        &&& self.diastolic_base as int == b.diastolic
        &&& self.heart_rate_base as int == b.heart_rate
        &&& self.irregular_rhythm == b.irregular
        &&& self.status == b.status
    }

    /// Starts a simulator for one device: the random source is seeded from
    /// the device id, and the baseline is fixed by the scenario for the whole
    /// run.
    pub fn new(device_id: String, scenario: Scenario) -> (r: BpSimulator)
        ensures
            r.wf(),
            r.model().id == device_id@,
            r.model().scenario == scenario,
            r.model().draws == Seq::<(int, int, int)>::empty(),
    {
        let seed = seed_for_device(&device_id);
        let rng = DetRng::new(seed);
        let mut systolic_base: i32 = 120;
        let mut diastolic_base: i32 = 80;
        let mut heart_rate_base: i32 = 70;
        let mut irregular_rhythm = false;
        let mut status = Status::Normal;
        match scenario {
            Scenario::HighSystolic => {
                systolic_base = 185;
                diastolic_base = 95;
                heart_rate_base = 90;
                status = Status::Critical;
            },
            Scenario::LowDiastolic => {
                systolic_base = 95;
                diastolic_base = 50;
                heart_rate_base = 85;
                status = Status::Warning;
            },
            Scenario::IrregularHeartbeat => {
                irregular_rhythm = true;
                heart_rate_base = 85;
                status = Status::Warning;
            },
            _ => {},
        }
        BpSimulator {
            device_id,
            scenario,
            status,
            systolic_base,
            diastolic_base,
            heart_rate_base,
            irregular_rhythm,
            rng,
        }
    }

    /// Generates the reading of one tick and advances the random source.
    ///
    /// Every generated field is pinned to the tick outcome of the simulator's
    /// model, so a run's readings are a function of device id, scenario and
    /// tick count alone; the timestamp is the caller's. Each vital stays
    /// within its jitter band around the scenario baseline; under the
    /// high-systolic scenario every systolic value lies in `[182, 188]` and
    /// the status is critical.
    pub fn tick(&mut self, timestamp: String) -> (r: BpReading)
        requires
            old(self).wf(),
        ensures
            final(self).wf(),
            final(self).model() == bp_next_model(old(self).model()),
            ({
                let o = bp_tick_outcome(old(self).model());
                &&& r.systolic as int == o.systolic
                &&& r.diastolic as int == o.diastolic
                &&& r.heart_rate as int == o.heart_rate
                &&& r.irregular_heartbeat == o.irregular
            }),
            r.device_id@ == old(self).model().id,
            r.timestamp == timestamp,
            r.mode == Mode::Auto,
            r.status == bp_baseline(old(self).model().scenario).status,
            r.mean_arterial_pressure as int == (2 * (r.diastolic as int) + (r.systolic as int))
                / 3,
            r.pulse_pressure == r.systolic - r.diastolic,
            ({
                let b = bp_baseline(old(self).model().scenario);
                &&& b.systolic - 3 <= r.systolic as int <= b.systolic + 3
                &&& b.diastolic - 2 <= r.diastolic as int <= b.diastolic + 2
                &&& b.heart_rate - 2 <= r.heart_rate as int <= b.heart_rate + 32
            }),
            old(self).model().scenario == Scenario::HighSystolic ==> 182 <= r.systolic <= 188
                && r.status == Status::Critical,
    {
        let systolic = self.systolic_base + self.rng.range_incl_i32(-3, 3);
        let diastolic = self.diastolic_base + self.rng.range_incl_i32(-2, 2);
        let mut heart_rate = self.heart_rate_base + self.rng.range_incl_i32(-2, 2);
        let irregular_flag = self.irregular_rhythm;
        if self.irregular_rhythm {
            if self.rng.ratio(1, 5) {
                heart_rate = heart_rate + self.rng.range_incl_i32(20, 30);
            }
        }
        let pressure_mean = mean_arterial_pressure(systolic, diastolic);
        let pressure_pulse = pulse_pressure(systolic, diastolic);
        let r = BpReading {
            device_id: self.device_id.clone(),
            timestamp,
            mode: Mode::Auto,
            status: self.status,
            systolic,
            diastolic,
            heart_rate,
            mean_arterial_pressure: pressure_mean,
            pulse_pressure: pressure_pulse,
            irregular_heartbeat: irregular_flag,
        };
        proof {
            assert(self.model() =~= bp_next_model(old(self).model()));
        }
        r
    }
}

/// Determinism: two blood-pressure simulators alike in device id, scenario
/// and draw history generate the same outcomes for any number of further
/// ticks. Everything a reading carries besides its timestamp is a function of
/// those three.
pub proof fn lemma_bp_determinism(a: &BpSimulator, b: &BpSimulator, n: nat)
    requires
        a.wf(),
        b.wf(),
        a.model().id == b.model().id,
        a.model().scenario == b.model().scenario,
        a.model().draws == b.model().draws,
    ensures
        bp_model_run(a.model(), n) == bp_model_run(b.model(), n),
{
    assert(a.model().seed == b.model().seed);
    assert(a.model() =~= b.model());
}

} // verus!
