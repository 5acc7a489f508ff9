use neurosim::neuron::izhikevich::{IzhikevichParams, IzhikevichPreset};
use neurosim::neuron::network::{Listeners, TickAction};
use neurosim::neuron::network::tick_order;

#[test]
fn tonic_spiking_preset_values() {
    let p = IzhikevichPreset::new(IzhikevichParams::tonic_spiking);
    assert_eq!(p.a_milli, 20);
    assert_eq!(p.b_milli, 200);
    assert_eq!(p.c_milli, -65000);
    assert_eq!(p.d_milli, 6000);
    assert_eq!(p.v0_milli, -70000);
    // u0 = b * v0 = 0.2 * -70 = -14
    assert_eq!(p.u0_milli, -14000);
    assert_eq!(p.threshold_milli, 30000);
}

#[test]
fn defaults_survive_where_a_preset_is_silent() {
    // spike_freq_adapt leaves the reset potential at the table's default
    let p = IzhikevichPreset::new(IzhikevichParams::spike_freq_adapt);
    assert_eq!(p.a_milli, 10);
    assert_eq!(p.c_milli, -80000);
    assert_eq!(p.d_milli, 8000);
    assert_eq!(p.v0_milli, -65000);
    assert_eq!(p.u0_milli, -13000);
}

#[test]
fn accomodation_overrides_initial_recovery() {
    let p = IzhikevichPreset::new(IzhikevichParams::accomodation);
    assert_eq!(p.b_milli, 1000);
    assert_eq!(p.v0_milli, -65000);
    // b * v0 would be -65; the preset pins u0 at -16 instead
    assert_eq!(p.u0_milli, -16000);
}

#[test]
fn fractional_recovery_jump_is_kept() {
    let p = IzhikevichPreset::new(IzhikevichParams::phasic_bursting);
    // d = 0.05 in native units
    assert_eq!(p.d_milli, 50);
}

#[test]
fn preset_values_convert_to_the_reference_constants() {
    let p = IzhikevichPreset::new(IzhikevichParams::tonic_spiking);
    assert_eq!(p.a_milli as f64 / 1000.0, 0.02);
    assert_eq!(p.b_milli as f64 / 1000.0, 0.2);
    assert_eq!(p.c_milli as f64 / 1000.0, -65.0);
    assert_eq!(p.d_milli as f64 / 1000.0, 6.0);
    assert_eq!(p.v0_milli as f64 / 1000.0, -70.0);
    let q = IzhikevichPreset::new(IzhikevichParams::inh_induced_brst);
    assert_eq!(q.a_milli as f64 / 1000.0, 0.026);
    assert_eq!(q.v0_milli as f64 / 1000.0, -63.8);
}

#[test]
fn preset_names_round_trip() {
    let all = [
        IzhikevichParams::tonic_spiking,
        IzhikevichParams::phasic_spiking,
        IzhikevichParams::tonic_bursting,
        IzhikevichParams::phasic_bursting,
        IzhikevichParams::mixed_mode,
        IzhikevichParams::spike_freq_adapt,
        IzhikevichParams::Class_1_excit,
        IzhikevichParams::Class_2_excit,
        IzhikevichParams::spike_latency,
        IzhikevichParams::subthreshold_osc,
        IzhikevichParams::resonator,
        IzhikevichParams::integrator,
        IzhikevichParams::rebound_spike,
        IzhikevichParams::rebound_burst,
        IzhikevichParams::thresh_variability,
        IzhikevichParams::bistability,
        IzhikevichParams::DAP,
        IzhikevichParams::accomodation,
        IzhikevichParams::inh_induced_sp,
        IzhikevichParams::inh_induced_brst,
        IzhikevichParams::intrinsically_bursting,
        IzhikevichParams::fast_spiking,
    ];
    let names = [
        "tonic_spiking",
        "phasic_spiking",
        "tonic_bursting",
        "phasic_bursting",
        "mixed_mode",
        "spike_freq_adapt",
        "Class_1_excit",
        "Class_2_excit",
        "spike_latency",
        "subthreshold_osc",
        "resonator",
        "integrator",
        "rebound_spike",
        "rebound_burst",
        "thresh_variability",
        "bistability",
        "DAP",
        "accomodation",
        "inh_induced_sp",
        "inh_induced_brst",
        "intrinsically_bursting",
        "fast_spiking",
    ];
    for (p, name) in all.iter().zip(names.iter()) {
        assert_eq!(IzhikevichParams::from_name(name), Some(*p));
    }
    assert_eq!(IzhikevichParams::from_name("chattering"), None);
    assert_eq!(IzhikevichParams::from_name(""), None);
}

#[test]
fn listeners_inform_in_registration_order() {
    let mut listeners = Listeners::new();
    assert_eq!(listeners.inform(), Vec::<u64>::new());
    listeners.add(11);
    listeners.add(22);
    listeners.add(33);
    // one spike: every listener exactly once, in registration order
    assert_eq!(listeners.inform(), vec![11, 22, 33]);
    // a second spike repeats them; nothing is consumed
    assert_eq!(listeners.inform(), vec![11, 22, 33]);
}

#[test]
fn tick_order_visits_nodes_and_edges_in_sequence() {
    let topology = vec![vec![1], vec![0, 2], vec![]];
    let plan = tick_order(&topology);
    assert_eq!(
        plan,
        vec![
            TickAction::Step { node: 0 },
            TickAction::Deliver { from: 0, edge: 0, to: 1 },
            TickAction::Step { node: 1 },
            TickAction::Deliver { from: 1, edge: 0, to: 0 },
            TickAction::Deliver { from: 1, edge: 1, to: 2 },
            TickAction::Step { node: 2 },
        ]
    );
}

#[test]
fn tick_order_of_an_empty_network_is_empty() {
    let plan = tick_order(&Vec::new());
    assert!(plan.is_empty());
}
