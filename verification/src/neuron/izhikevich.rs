//! Parameter presets for the Izhikevich point-neuron model.
//!
//! Each preset fixes the recovery time-scale `a`, the coupling sensitivity
//! `b`, the reset potential `c`, the recovery jump `d` and the initial
//! membrane potential `v0` of one canonical firing pattern.  The initial
//! recovery value is `u0 = b * v0` unless the preset overrides it.
//!
//! Every preset value is a decimal with at most three fractional digits, so
//! the table below states them exactly as integers in thousandths of the
//! model's native unit.  A caller that runs the real-valued dynamics divides
//! by one thousand to recover the reference constants without rounding.

use vstd::prelude::*;

verus! {

/// The named Izhikevich firing-pattern presets.
#[allow(non_camel_case_types)]
#[derive(Debug, PartialEq, Eq, Copy, Clone, Structural)]
pub enum IzhikevichParams {
    tonic_spiking,
    phasic_spiking,
    tonic_bursting,
    phasic_bursting,
    mixed_mode,
    spike_freq_adapt,
    Class_1_excit,
    Class_2_excit,
    spike_latency,
    subthreshold_osc,
    resonator,
    integrator,
    rebound_spike,
    rebound_burst,
    thresh_variability,
    bistability,
    DAP,
    accomodation,
    inh_induced_sp,
    inh_induced_brst,
    intrinsically_bursting,
    fast_spiking,
}

/// One preset's constants, in thousandths: a value of `20` stands for
/// `0.02` in the model's native unit.  `threshold_milli` is the spike
/// threshold, fixed at 30 for every preset of this model variant.
pub struct IzhikevichPreset {
    pub a_milli: i64,
    pub b_milli: i64,
    pub c_milli: i64,
    pub d_milli: i64,
    pub v0_milli: i64,
    pub u0_milli: i64,
    pub threshold_milli: i64,
}

/// The `(a, b, c, d, v0)` tuple of a preset, in thousandths, together with
/// the preset's explicit initial-recovery override (`0` where none is set).
pub open spec fn preset_table(params: IzhikevichParams) -> (int, int, int, int, int, int) {
    match params {
        IzhikevichParams::tonic_spiking => (20, 200, -65000, 6000, -70000, 0),
        IzhikevichParams::phasic_spiking => (20, 250, -65000, 6000, -64000, 0),
        IzhikevichParams::tonic_bursting => (20, 200, -50000, 2000, -70000, 0),
        IzhikevichParams::phasic_bursting => (20, 250, -55000, 50, -70000, 0),
        IzhikevichParams::mixed_mode => (20, 200, -55000, 4000, -70000, 0),
        IzhikevichParams::spike_freq_adapt => (10, 200, -80000, 8000, -65000, 0),
        IzhikevichParams::Class_1_excit => (20, -100, -55000, 6000, -60000, 0),
        IzhikevichParams::Class_2_excit => (200, -260, -65000, 0, -64000, 0),
        IzhikevichParams::spike_latency => (20, 200, -65000, 6000, -70000, 0),
        IzhikevichParams::subthreshold_osc => (50, 260, -60000, 0, -62000, 0),
        IzhikevichParams::resonator => (100, 260, -60000, -1000, -62000, 0),
        IzhikevichParams::integrator => (20, -100, -55000, 6000, -60000, 0),
        IzhikevichParams::rebound_spike => (30, 250, -60000, 4000, -64000, 0),
        IzhikevichParams::rebound_burst => (30, 250, -52000, 0, -64000, 0),
        IzhikevichParams::thresh_variability => (30, 250, -60000, 4000, -64000, 0),
        IzhikevichParams::bistability => (100, 260, -60000, 0, -61000, 0),
        IzhikevichParams::DAP => (1000, 200, -60000, -21000, -70000, 0),
        IzhikevichParams::accomodation => (20, 1000, -55000, 4000, -65000, -16000),
        IzhikevichParams::inh_induced_sp => (20, -1000, -60000, 8000, -63800, 0),
        IzhikevichParams::inh_induced_brst => (26, -1000, -45000, -2000, -63800, 0),
        IzhikevichParams::intrinsically_bursting => (100, 200, -55000, 4000, -70000, 0),
        IzhikevichParams::fast_spiking => (100, 300, -65000, 2000, -65000, 0),
    }
}

/// The initial recovery value of a preset, in thousandths: `b * v0` scaled
/// back to thousandths, unless the preset overrides it.
pub open spec fn preset_u0(params: IzhikevichParams) -> int {
    let (a, b, c, d, v0, u_override) = preset_table(params);
    if u_override == 0 {
        b * v0 / 1000
    } else {
        u_override
    }
}

impl IzhikevichPreset {
    /// The constants of one named preset, stated exactly.
    pub fn new(params: IzhikevichParams) -> (r: Self)
        ensures
            r.a_milli as int == preset_table(params).0,
            r.b_milli as int == preset_table(params).1,
            r.c_milli as int == preset_table(params).2,
            r.d_milli as int == preset_table(params).3,
            r.v0_milli as int == preset_table(params).4,
            r.u0_milli as int == preset_u0(params),
            r.threshold_milli == 30000,
    {
        let (a_milli, b_milli, c_milli, d_milli, v0_milli, u0_milli): (
            i64, i64, i64, i64, i64, i64,
        ) = match params {
            IzhikevichParams::tonic_spiking => (20, 200, -65000, 6000, -70000, -14000),
            IzhikevichParams::phasic_spiking => (20, 250, -65000, 6000, -64000, -16000),
            IzhikevichParams::tonic_bursting => (20, 200, -50000, 2000, -70000, -14000),
            IzhikevichParams::phasic_bursting => (20, 250, -55000, 50, -70000, -17500),
            IzhikevichParams::mixed_mode => (20, 200, -55000, 4000, -70000, -14000),
            IzhikevichParams::spike_freq_adapt => (10, 200, -80000, 8000, -65000, -13000),
            IzhikevichParams::Class_1_excit => (20, -100, -55000, 6000, -60000, 6000),
            IzhikevichParams::Class_2_excit => (200, -260, -65000, 0, -64000, 16640),
            IzhikevichParams::spike_latency => (20, 200, -65000, 6000, -70000, -14000),
            IzhikevichParams::subthreshold_osc => (50, 260, -60000, 0, -62000, -16120),
            IzhikevichParams::resonator => (100, 260, -60000, -1000, -62000, -16120),
            IzhikevichParams::integrator => (20, -100, -55000, 6000, -60000, 6000),
            IzhikevichParams::rebound_spike => (30, 250, -60000, 4000, -64000, -16000),
            IzhikevichParams::rebound_burst => (30, 250, -52000, 0, -64000, -16000),
            IzhikevichParams::thresh_variability => (30, 250, -60000, 4000, -64000, -16000),
            IzhikevichParams::bistability => (100, 260, -60000, 0, -61000, -15860),
            IzhikevichParams::DAP => (1000, 200, -60000, -21000, -70000, -14000),
            IzhikevichParams::accomodation => (20, 1000, -55000, 4000, -65000, -16000),
            IzhikevichParams::inh_induced_sp => (20, -1000, -60000, 8000, -63800, 63800),
            IzhikevichParams::inh_induced_brst => (26, -1000, -45000, -2000, -63800, 63800),
            IzhikevichParams::intrinsically_bursting => (100, 200, -55000, 4000, -70000, -14000),
            IzhikevichParams::fast_spiking => (100, 300, -65000, 2000, -65000, -19500),
        };
        IzhikevichPreset {
            a_milli,
            b_milli,
            c_milli,
            d_milli,
            v0_milli,
            u0_milli,
            threshold_milli: 30000,
        }
    }
}

/// The name of a preset, as a model description writes it.
pub open spec fn preset_name(params: IzhikevichParams) -> Seq<char> {
    match params {
        IzhikevichParams::tonic_spiking => "tonic_spiking"@,
        IzhikevichParams::phasic_spiking => "phasic_spiking"@,
        IzhikevichParams::tonic_bursting => "tonic_bursting"@,
        IzhikevichParams::phasic_bursting => "phasic_bursting"@,
        IzhikevichParams::mixed_mode => "mixed_mode"@,
        IzhikevichParams::spike_freq_adapt => "spike_freq_adapt"@,
        IzhikevichParams::Class_1_excit => "Class_1_excit"@,
        IzhikevichParams::Class_2_excit => "Class_2_excit"@,
        IzhikevichParams::spike_latency => "spike_latency"@,
        IzhikevichParams::subthreshold_osc => "subthreshold_osc"@,
        IzhikevichParams::resonator => "resonator"@,
        IzhikevichParams::integrator => "integrator"@,
        IzhikevichParams::rebound_spike => "rebound_spike"@,
        IzhikevichParams::rebound_burst => "rebound_burst"@,
        IzhikevichParams::thresh_variability => "thresh_variability"@,
        IzhikevichParams::bistability => "bistability"@,
        IzhikevichParams::DAP => "DAP"@,
        IzhikevichParams::accomodation => "accomodation"@,
        IzhikevichParams::inh_induced_sp => "inh_induced_sp"@,
        IzhikevichParams::inh_induced_brst => "inh_induced_brst"@,
        IzhikevichParams::intrinsically_bursting => "intrinsically_bursting"@,
        IzhikevichParams::fast_spiking => "fast_spiking"@,
    }
}

/// Compares two borrowed strings.
fn name_eq(a: &str, b: &str) -> (r: bool)
    ensures
        r == (a@ == b@),
{
    let left: String = a.to_owned();
    let right: String = b.to_owned();
    left.eq(&right)
}

impl IzhikevichParams {
    /// The preset a model description names, or `None` for an unknown name —
    /// the unknown-preset configuration error is the caller's to raise.
    pub fn from_name(s: &str) -> (r: Option<IzhikevichParams>)
        ensures
            match r {
                Option::Some(p) => preset_name(p) == s@,
                Option::None => forall|p: IzhikevichParams| preset_name(p) != s@,
            },
    {
        if name_eq(s, "tonic_spiking") {
            Option::Some(IzhikevichParams::tonic_spiking)
        } else if name_eq(s, "phasic_spiking") {
            Option::Some(IzhikevichParams::phasic_spiking)
        } else if name_eq(s, "tonic_bursting") {
            Option::Some(IzhikevichParams::tonic_bursting)
        } else if name_eq(s, "phasic_bursting") {
            Option::Some(IzhikevichParams::phasic_bursting)
        } else if name_eq(s, "mixed_mode") {
            Option::Some(IzhikevichParams::mixed_mode)
        } else if name_eq(s, "spike_freq_adapt") {
            Option::Some(IzhikevichParams::spike_freq_adapt)
        } else if name_eq(s, "Class_1_excit") {
            Option::Some(IzhikevichParams::Class_1_excit)
        } else if name_eq(s, "Class_2_excit") {
            Option::Some(IzhikevichParams::Class_2_excit)
        } else if name_eq(s, "spike_latency") {
            Option::Some(IzhikevichParams::spike_latency)
        } else if name_eq(s, "subthreshold_osc") {
            Option::Some(IzhikevichParams::subthreshold_osc)
        } else if name_eq(s, "resonator") {
            Option::Some(IzhikevichParams::resonator)
        } else if name_eq(s, "integrator") {
            Option::Some(IzhikevichParams::integrator)
        } else if name_eq(s, "rebound_spike") {
            Option::Some(IzhikevichParams::rebound_spike)
        } else if name_eq(s, "rebound_burst") {
            Option::Some(IzhikevichParams::rebound_burst)
        } else if name_eq(s, "thresh_variability") {
            Option::Some(IzhikevichParams::thresh_variability)
        } else if name_eq(s, "bistability") {
            Option::Some(IzhikevichParams::bistability)
        } else if name_eq(s, "DAP") {
            Option::Some(IzhikevichParams::DAP)
        } else if name_eq(s, "accomodation") {
            Option::Some(IzhikevichParams::accomodation)
        } else if name_eq(s, "inh_induced_sp") {
            Option::Some(IzhikevichParams::inh_induced_sp)
        } else if name_eq(s, "inh_induced_brst") {
            Option::Some(IzhikevichParams::inh_induced_brst)
        } else if name_eq(s, "intrinsically_bursting") {
            Option::Some(IzhikevichParams::intrinsically_bursting)
        } else if name_eq(s, "fast_spiking") {
            Option::Some(IzhikevichParams::fast_spiking)
        } else {
            Option::None
        }
    }
}

/// The initial recovery value of every preset follows the coupling
/// `u0 = b * v0` in the model's native units, unless the preset sets an
/// explicit override, in which case that override is taken verbatim.
pub proof fn lemma_preset_u0_coupling(params: IzhikevichParams)
    ensures
        preset_table(params).5 == 0 ==> 1000 * preset_u0(params) == preset_table(params).1
            * preset_table(params).4,
        preset_table(params).5 != 0 ==> preset_u0(params) == preset_table(params).5,
{
}

} // verus!
