//! Layers of a small neural network: forward inference, backward gradient
//! propagation and three gradient-descent update rules, over fixed-rank
//! tensors of a generic scalar type.

pub mod error;
pub mod scalar;
pub mod tensor;
pub mod layer;
pub mod param;
pub mod laws;
