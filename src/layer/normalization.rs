//! The normalization layer. It holds a rank-4 parameter tensor, which the
//! shared update rules train, but has no forward or backward formula: those
//! two report `NotImplemented` and leave every buffer as it was.

use vstd::prelude::*;

use crate::error::LayerError;
use crate::layer::node::NodeLayer;
use crate::layer::{
    adam_all, adam_momentum_all, adam_velocity_all, descent_all, momentum_all, same_layout, Backprop,
    GradientDecent, GradientDescentAdam, GradientDescentMomentum, Inference, Layer,
};
use crate::scalar::Scalar;
use crate::tensor::{shape_size, Tensor};

verus! {

/// A normalization layer.
pub struct NormalizationLayer<T> {
    pub(crate) params: Tensor<T, 4>,
}

impl<T> View for NormalizationLayer<T> {
    type V = Seq<T>;

    open(crate) spec fn view(&self) -> Seq<T> {
        self.params@
    }
}

impl<T> NormalizationLayer<T> {
    /// The extents of the parameters.
    pub open(crate) spec fn dims(&self) -> Seq<usize> {
        self.params.dims()
    }

    /// The parameter tensor.
    pub open(crate) spec fn param_tensor(&self) -> Tensor<T, 4> {
        self.params
    }

    /// A layer with the given extents and parameters; the element count
    /// must be the product of the extents.
    pub fn new(shape: [usize; 4], data: Vec<T>) -> (r: Result<Self, LayerError>)
        ensures
            r is Ok <==> data@.len() == shape_size(shape@),
            r is Ok ==> r->Ok_0.dims() == shape@ && r->Ok_0@ == data@,
            r is Err ==> r == Err::<Self, LayerError>(LayerError::ShapeMismatch),
    {
        match Tensor::new(shape, data) {
            Ok(params) => Ok(NormalizationLayer { params }),
            Err(e) => Err(e),
        }
    }

    /// The parameters in row-major order.
    pub fn iter(&self) -> (r: &[T])
        ensures
            r@ == self@,
    {
        self.params.iter()
    }

    /// The parameters in row-major order, for writing; the extents stay.
    pub fn iter_mut(&mut self) -> (r: &mut [T])
        ensures
            r@ == old(self)@,
            final(self)@ == final(r)@,
            final(self).dims() == old(self).dims(),
    {
        self.params.iter_mut()
    }
}

impl<T> Layer for NormalizationLayer<T> {

}

impl<T> Inference<NodeLayer<T>, NodeLayer<T>> for NormalizationLayer<T> {
    fn inference(&self, input: &NodeLayer<T>, output: &mut NodeLayer<T>) -> (r: Result<(), LayerError>)
        ensures
            r == Err::<(), LayerError>(LayerError::NotImplemented),
            *final(output) == *old(output),
    {
        Err(LayerError::NotImplemented)
    }
}

impl<T> Backprop<NodeLayer<T>, NodeLayer<T>, Tensor<T, 5>, Tensor<T, 5>, Tensor<T, 4>> for NormalizationLayer<T> {
    fn backprop(
        &self,
        input: &NodeLayer<T>,
        output: &NodeLayer<T>,
        output_delta: &Tensor<T, 5>,
        input_delta: &mut Tensor<T, 5>,
        grad: &mut Tensor<T, 4>,
    ) -> (r: Result<(), LayerError>)
        ensures
            r == Err::<(), LayerError>(LayerError::NotImplemented),
            *final(input_delta) == *old(input_delta),
            *final(grad) == *old(grad),
    {
        Err(LayerError::NotImplemented)
    }
}

impl<T: Scalar> GradientDecent<T, Tensor<T, 4>> for NormalizationLayer<T> {
    /// Plain gradient descent on the parameters.
    fn grad_descent(&mut self, step: T, grad: &Tensor<T, 4>) -> (r: Result<(), LayerError>)
        ensures
            final(self).dims() == old(self).dims(),
            r is Ok <==> same_layout(old(self).param_tensor(), *grad),
            r is Ok ==> final(self)@ == descent_all(old(self)@, step, grad@),
            r is Err ==> r == Err::<(), LayerError>(LayerError::ShapeMismatch) && final(self)@ == old(self)@,
    {
        self.params.grad_descent(step, grad)
    }
}

impl<T: Scalar> GradientDescentMomentum<T, Tensor<T, 4>> for NormalizationLayer<T> {
    /// The momentum rule on the parameters.
    fn grad_descent_momentum(&mut self, step: T, grad: &Tensor<T, 4>, momentum: &mut Tensor<T, 4>) -> (r: Result<
        (),
        LayerError,
    >)
        ensures
            final(self).dims() == old(self).dims(),
            final(momentum).dims() == old(momentum).dims(),
            r is Ok <==> same_layout(old(self).param_tensor(), *grad) && same_layout(
                old(self).param_tensor(),
                *old(momentum),
            ),
            r is Ok ==> final(self)@ == momentum_all(old(self)@, step, old(momentum)@, grad@),
            r is Ok ==> final(momentum)@ == grad@,
            r is Err ==> r == Err::<(), LayerError>(LayerError::ShapeMismatch) && final(self)@ == old(self)@
                && final(momentum)@ == old(momentum)@,
    {
        self.params.grad_descent_momentum(step, grad, momentum)
    }
}

impl<T: Scalar> GradientDescentAdam<T, u32, Tensor<T, 4>> for NormalizationLayer<T> {
    /// Adam on the parameters.
    fn grad_descent_adam(
        &mut self,
        step: T,
        time: u32,
        beta_m: T,
        beta_v: T,
        epsilon: T,
        grad: &Tensor<T, 4>,
        momentum: &mut Tensor<T, 4>,
        velocity: &mut Tensor<T, 4>,
    ) -> (r: Result<(), LayerError>)
        ensures
            final(self).dims() == old(self).dims(),
            final(momentum).dims() == old(momentum).dims(),
            final(velocity).dims() == old(velocity).dims(),
            r == Err::<(), LayerError>(LayerError::InvalidArgument) <==> time == 0,
            r is Ok <==> time != 0 && same_layout(old(self).param_tensor(), *grad) && same_layout(old(self).param_tensor(), *old(momentum))
                && same_layout(old(self).param_tensor(), *old(velocity)),
            r == Err::<(), LayerError>(LayerError::ShapeMismatch) <==> time != 0 && !(same_layout(
                old(self).param_tensor(),
                *grad,
            ) && same_layout(old(self).param_tensor(), *old(momentum)) && same_layout(
                old(self).param_tensor(),
                *old(velocity),
            )),
            r is Err ==> final(self)@ == old(self)@ && final(momentum)@ == old(momentum)@
                && final(velocity)@ == old(velocity)@,
            r is Ok ==> {
                &&& final(momentum)@ == adam_momentum_all(beta_m, old(momentum)@, grad@)
                &&& final(velocity)@ == adam_velocity_all(beta_v, old(velocity)@, grad@)
                &&& final(self)@ == adam_all(
                    old(self)@,
                    step,
                    time as nat,
                    beta_m,
                    beta_v,
                    epsilon,
                    final(momentum)@,
                    final(velocity)@,
                )
            },
    {
        self.params.grad_descent_adam(step, time, beta_m, beta_v, epsilon, grad, momentum, velocity)
    }
}

} // verus!
