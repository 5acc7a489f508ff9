//! Scenario checks of the membrane dynamics that the crate's preset table
//! parameterises.  The forward-Euler arithmetic below is the caller's side
//! of the contract; the constants under test come from the verified table.

use neurosim::neuron::izhikevich::{IzhikevichParams, IzhikevichPreset};

struct Membrane {
    v: f64,
    u: f64,
    threshold: f64,
    a: f64,
    b: f64,
    c: f64,
    d: f64,
}

impl Membrane {
    fn from_preset(params: IzhikevichParams) -> Self {
        let p = IzhikevichPreset::new(params);
        Membrane {
            v: p.v0_milli as f64 / 1000.0,
            u: p.u0_milli as f64 / 1000.0,
            threshold: p.threshold_milli as f64 / 1000.0,
            a: p.a_milli as f64 / 1000.0,
            b: p.b_milli as f64 / 1000.0,
            c: p.c_milli as f64 / 1000.0,
            d: p.d_milli as f64 / 1000.0,
        }
    }

    fn step(&mut self, input: f64, dt: f64) -> bool {
        let dv = (0.04 * self.v * self.v) + (5.0 * self.v) + 140.0 - self.u + input;
        let du = self.a * ((self.b * self.v) - self.u);
        self.v += dv * dt;
        self.u += du * dt;
        if self.v >= self.threshold {
            self.v = self.c;
            self.u += self.d;
            return true;
        }
        false
    }
}

#[test]
fn tonic_spiking_crosses_threshold_under_constant_drive() {
    // delayed-constant drive well above rheobase: onset after 0.01 time units
    let mut m = Membrane::from_preset(IzhikevichParams::tonic_spiking);
    assert_eq!(m.c, -65.0);
    assert_eq!(m.d, 6.0);
    assert_eq!(m.v, -70.0);
    let dt = 0.1;
    let mut elapsed = 0.0;
    let mut spikes = 0;
    for _ in 0..1000 {
        let drive = if elapsed > 0.01 { 10.0 } else { 0.0 };
        elapsed += dt;
        if m.step(drive, dt) {
            spikes += 1;
        }
    }
    assert!(spikes >= 1, "no spike within 1000 ticks at dt=0.1");
}

#[test]
fn spike_resets_to_c_and_bumps_u_by_d() {
    let mut m = Membrane::from_preset(IzhikevichParams::tonic_spiking);
    let dt = 0.1;
    let mut fired_once = false;
    for _ in 0..1000 {
        let v_pre = m.v;
        let u_pre = m.u;
        if m.step(10.0, dt) {
            fired_once = true;
            assert_eq!(m.v, -65.0, "reset potential must be the preset's c");
            // u after a spike is the Euler-updated u plus the recovery jump d
            let u_before_spike = u_pre + (m.a * ((m.b * v_pre) - u_pre)) * dt;
            assert_eq!(m.u.to_bits(), (u_before_spike + 6.0).to_bits());
        }
    }
    assert!(fired_once);
}

#[test]
fn deterministic_drive_gives_identical_trajectories() {
    let mut m1 = Membrane::from_preset(IzhikevichParams::phasic_spiking);
    let mut m2 = Membrane::from_preset(IzhikevichParams::phasic_spiking);
    let dt = 0.1;
    let mut elapsed = 0.0;
    for _ in 0..4000 {
        let drive = if elapsed > 0.01 { 10.0 } else { 0.0 };
        elapsed += dt;
        let f1 = m1.step(drive, dt);
        let f2 = m2.step(drive, dt);
        assert_eq!(f1, f2);
        assert_eq!(m1.v.to_bits(), m2.v.to_bits());
        assert_eq!(m1.u.to_bits(), m2.u.to_bits());
    }
}

#[test]
fn zero_drive_stays_bounded() {
    let mut m = Membrane::from_preset(IzhikevichParams::tonic_spiking);
    let dt = 0.1;
    for _ in 0..4000 {
        m.step(0.0, dt);
        assert!(m.v.is_finite() && m.u.is_finite());
        assert!(m.v.abs() < 200.0, "membrane potential diverged: {}", m.v);
    }
}
