//! The softmax layer. It has no parameters and no formula: every operation
//! reports `NotImplemented` and leaves every buffer as it was.

use vstd::prelude::*;

use crate::error::LayerError;
use crate::layer::node::NodeLayer;
use crate::layer::{
    Backprop, GradientDecent, GradientDescentAdam, GradientDescentMomentum, Inference, Layer,
};
use crate::tensor::Tensor;

verus! {

/// A softmax layer.
pub struct SoftmaxLayer;

impl SoftmaxLayer {
    pub fn new() -> (r: Self) {
        SoftmaxLayer
    }
}

impl Layer for SoftmaxLayer {

}

impl<T> Inference<NodeLayer<T>, NodeLayer<T>> for SoftmaxLayer {
    fn inference(&self, input: &NodeLayer<T>, output: &mut NodeLayer<T>) -> (r: Result<(), LayerError>)
        ensures
            r == Err::<(), LayerError>(LayerError::NotImplemented),
            *final(output) == *old(output),
    {
        Err(LayerError::NotImplemented)
    }
}

impl<T> Backprop<NodeLayer<T>, NodeLayer<T>, Tensor<T, 5>, Tensor<T, 5>, Tensor<T, 0>> for SoftmaxLayer {
    fn backprop(
        &self,
        input: &NodeLayer<T>,
        output: &NodeLayer<T>,
        output_delta: &Tensor<T, 5>,
        input_delta: &mut Tensor<T, 5>,
        grad: &mut Tensor<T, 0>,
    ) -> (r: Result<(), LayerError>)
        ensures
            r == Err::<(), LayerError>(LayerError::NotImplemented),
            *final(input_delta) == *old(input_delta),
            *final(grad) == *old(grad),
    {
        Err(LayerError::NotImplemented)
    }
}

impl<T> GradientDecent<T, Tensor<T, 0>> for SoftmaxLayer {
    fn grad_descent(&mut self, step: T, grad: &Tensor<T, 0>) -> (r: Result<(), LayerError>)
        ensures
            r == Err::<(), LayerError>(LayerError::NotImplemented),
    {
        Err(LayerError::NotImplemented)
    }
}

impl<T> GradientDescentMomentum<T, Tensor<T, 0>> for SoftmaxLayer {
    fn grad_descent_momentum(&mut self, step: T, grad: &Tensor<T, 0>, momentum: &mut Tensor<T, 0>) -> (r: Result<
        (),
        LayerError,
    >)
        ensures
            r == Err::<(), LayerError>(LayerError::NotImplemented),
            *final(momentum) == *old(momentum),
    {
        Err(LayerError::NotImplemented)
    }
}

impl<T> GradientDescentAdam<T, u32, Tensor<T, 0>> for SoftmaxLayer {
    fn grad_descent_adam(
        &mut self,
        step: T,
        time: u32,
        beta_m: T,
        beta_v: T,
        epsilon: T,
        grad: &Tensor<T, 0>,
        momentum: &mut Tensor<T, 0>,
        velocity: &mut Tensor<T, 0>,
    ) -> (r: Result<(), LayerError>)
        ensures
            r == Err::<(), LayerError>(LayerError::NotImplemented),
            *final(momentum) == *old(momentum),
            *final(velocity) == *old(velocity),
    {
        Err(LayerError::NotImplemented)
    }
}

} // verus!
