//! A single-compartment leaky integrate-and-fire neuron model with
//! excitatory and inhibitory synaptic conductances, integrated by explicit
//! Euler steps over exact rational arithmetic.

pub mod neuron;
pub mod rational;
