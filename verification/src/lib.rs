//! Core of a small spiking-neuron network simulator.
//!
//! The crate holds the parts of the simulator that are pure bookkeeping over
//! plain values: the Izhikevich parameter presets, the listener registry and
//! the per-tick evaluation order of a network, and the NeuroML document
//! builder that turns a stream of XML events into typed parameter records.
//! The floating-point membrane dynamics themselves are driven by a caller
//! around this crate; every decision that does not depend on real arithmetic
//! is made, and specified, here.

pub mod neuroml;
pub mod neuron;
