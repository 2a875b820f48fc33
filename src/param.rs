//! Models with a state of their own, outside the layer contract.

pub mod izhikevich;
