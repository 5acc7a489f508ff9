//! Neuron-side components: parameter presets and network bookkeeping.

pub mod izhikevich;
pub mod network;
