//! The bias layer: adds a rank-4 tensor of offsets to the activations,
//! pairing elements by their position in row-major order.

use vstd::prelude::*;

use crate::error::LayerError;
use crate::layer::node::NodeLayer;
use crate::layer::{
    adam_all, adam_momentum_all, adam_velocity_all, descent_all, momentum_all, same_layout, Backprop,
    BackpropAssign, GradientDecent, GradientDescentAdam, GradientDescentMomentum, Inference,
    InferenceAssign, Layer,
};
use crate::scalar::Scalar;
use crate::tensor::{shape_size, Tensor};

verus! {

/// Elementwise sum of two sequences of the same length.
pub open spec fn add_all<T: Scalar>(a: Seq<T>, b: Seq<T>) -> Seq<T> {
    Seq::new(a.len(), |i: int| T::spec_add(a[i], b[i]))
}

/// A layer of additive offsets.
pub struct BiasLayer<T> {
    pub(crate) nodes: Tensor<T, 4>,
}

impl<T> View for BiasLayer<T> {
    type V = Seq<T>;

    open(crate) spec fn view(&self) -> Seq<T> {
        self.nodes@
    }
}

impl<T> BiasLayer<T> {
    /// The extents of the offsets.
    pub open(crate) spec fn dims(&self) -> Seq<usize> {
        self.nodes.dims()
    }

    /// The tensor of offsets.
    pub open(crate) spec fn params(&self) -> Tensor<T, 4> {
        self.nodes
    }

    /// A layer with the given extents and offsets; the element count must be
    /// the product of the extents.
    pub fn new(shape: [usize; 4], data: Vec<T>) -> (r: Result<Self, LayerError>)
        ensures
            r is Ok <==> data@.len() == shape_size(shape@),
            r is Ok ==> r->Ok_0.dims() == shape@ && r->Ok_0@ == data@,
            r is Err ==> r == Err::<Self, LayerError>(LayerError::ShapeMismatch),
    {
        match Tensor::new(shape, data) {
            Ok(nodes) => Ok(BiasLayer { nodes }),
            Err(e) => Err(e),
        }
    }

    /// The offsets in row-major order.
    pub fn iter(&self) -> (r: &[T])
        ensures
            r@ == self@,
    {
        self.nodes.iter()
    }

    /// The offsets in row-major order, for writing; the extents stay.
    pub fn iter_mut(&mut self) -> (r: &mut [T])
        ensures
            r@ == old(self)@,
            final(self)@ == final(r)@,
            final(self).dims() == old(self).dims(),
    {
        self.nodes.iter_mut()
    }
}

impl<T> Layer for BiasLayer<T> {

}

impl<T: Scalar> Inference<NodeLayer<T>, NodeLayer<T>> for BiasLayer<T> {
    /// `output[i] = bias[i] + input[i]`. Fails with `ShapeMismatch`, leaving
    /// `output` as it was, where the three element counts differ.
    fn inference(&self, input: &NodeLayer<T>, output: &mut NodeLayer<T>) -> (r: Result<(), LayerError>)
        ensures
            final(output).dims() == old(output).dims(),
            r is Ok <==> self@.len() == input@.len() && input@.len() == old(output)@.len(),
            r is Ok ==> final(output)@ == add_all(self@, input@),
            r is Err ==> r == Err::<(), LayerError>(LayerError::ShapeMismatch) && final(output)@ == old(
                output,
            )@,
    {
        let n = self.nodes.data.len();
        if input.nodes.data.len() != n || output.nodes.data.len() != n {
            return Err(LayerError::ShapeMismatch);
        }
        let mut i: usize = 0;
        while i < n
            invariant
                n == self@.len(),
                n == input@.len(),
                i <= n,
                output.nodes.shape == old(output).nodes.shape,
                output@.len() == n,
                forall|j: int| 0 <= j < i ==> output@[j] == T::spec_add(self@[j], input@[j]),
            decreases n - i,
        {
            output.nodes.data[i] = self.nodes.data[i].add(input.nodes.data[i]);
            i = i + 1;
        }
        assert(output@ =~= add_all(self@, input@));
        Ok(())
    }
}

impl<T: Scalar> InferenceAssign<NodeLayer<T>> for BiasLayer<T> {
    /// `input[i] += bias[i]`. Fails with `ShapeMismatch`, leaving `input` as
    /// it was, where the element counts differ.
    fn inference_assign(&self, input: &mut NodeLayer<T>) -> (r: Result<(), LayerError>)
        ensures
            final(input).dims() == old(input).dims(),
            r is Ok <==> self@.len() == old(input)@.len(),
            r is Ok ==> final(input)@ == add_all(old(input)@, self@),
            r is Err ==> r == Err::<(), LayerError>(LayerError::ShapeMismatch) && final(input)@ == old(
                input,
            )@,
    {
        let n = self.nodes.data.len();
        if input.nodes.data.len() != n {
            return Err(LayerError::ShapeMismatch);
        }
        let mut i: usize = 0;
        while i < n
            invariant
                n == self@.len(),
                n == old(input)@.len(),
                i <= n,
                input.nodes.shape == old(input).nodes.shape,
                input@.len() == n,
                forall|j: int| 0 <= j < i ==> input@[j] == T::spec_add(old(input)@[j], self@[j]),
                forall|j: int| i <= j < n ==> input@[j] == old(input)@[j],
            decreases n - i,
        {
            let a = input.nodes.data[i];
            input.nodes.data[i] = a.add(self.nodes.data[i]);
            i = i + 1;
        }
        assert(input@ =~= add_all(old(input)@, self@));
        Ok(())
    }
}

impl<T: Scalar> Backprop<NodeLayer<T>, NodeLayer<T>, Tensor<T, 5>, Tensor<T, 5>, Tensor<T, 4>> for BiasLayer<T> {
    /// `grad[i] += output_delta[i]` and `input_delta[i] = output_delta[i]`.
    /// The gradient must have the layout of the offsets, the two deltas one
    /// layout, and the offsets and the deltas one element count; else it
    /// fails with `ShapeMismatch` and changes nothing.
    fn backprop(
        &self,
        input: &NodeLayer<T>,
        output: &NodeLayer<T>,
        output_delta: &Tensor<T, 5>,
        input_delta: &mut Tensor<T, 5>,
        grad: &mut Tensor<T, 4>,
    ) -> (r: Result<(), LayerError>)
        ensures
            final(input_delta).dims() == old(input_delta).dims(),
            final(grad).dims() == old(grad).dims(),
            r is Ok <==> same_layout(self.params(), *old(grad)) && same_layout(*output_delta, *old(input_delta))
                && output_delta@.len() == self@.len(),
            r is Ok ==> final(grad)@ == add_all(old(grad)@, output_delta@) && final(input_delta)@
                == output_delta@,
            r is Err ==> r == Err::<(), LayerError>(LayerError::ShapeMismatch) && final(grad)@ == old(grad)@
                && final(input_delta)@ == old(input_delta)@,
    {
        if !crate::layer::check_layout(&self.nodes, grad) || !crate::layer::check_layout(
            output_delta,
            input_delta,
        ) || output_delta.data.len() != self.nodes.data.len() {
            return Err(LayerError::ShapeMismatch);
        }
        let n = self.nodes.data.len();
        let mut i: usize = 0;
        while i < n
            invariant
                n == self@.len(),
                n == output_delta@.len(),
                n == old(grad)@.len(),
                n == old(input_delta)@.len(),
                i <= n,
                grad.shape == old(grad).shape,
                input_delta.shape == old(input_delta).shape,
                grad@.len() == n,
                input_delta@.len() == n,
                forall|j: int| 0 <= j < i ==> grad@[j] == T::spec_add(old(grad)@[j], output_delta@[j]),
                forall|j: int| i <= j < n ==> grad@[j] == old(grad)@[j],
                forall|j: int| 0 <= j < i ==> input_delta@[j] == output_delta@[j],
            decreases n - i,
        {
            let d = output_delta.data[i];
            let g = grad.data[i];
            grad.data[i] = g.add(d);
            input_delta.data[i] = d;
            i = i + 1;
        }
        assert(grad@ =~= add_all(old(grad)@, output_delta@));
        assert(input_delta@ =~= output_delta@);
        Ok(())
    }
}

impl<T: Scalar> BackpropAssign<NodeLayer<T>, Tensor<T, 5>, Tensor<T, 4>> for BiasLayer<T> {
    /// `grad[i] += output_delta[i]`; the delta passes through unchanged.
    /// Fails with `ShapeMismatch`, changing nothing, where the gradient's
    /// layout differs from the offsets' or the delta's element count does.
    fn backprop_assign(&self, output: &NodeLayer<T>, output_delta: &mut Tensor<T, 5>, grad: &mut Tensor<T, 4>) -> (r:
        Result<(), LayerError>)
        ensures
            final(output_delta)@ == old(output_delta)@,
            final(output_delta).dims() == old(output_delta).dims(),
            final(grad).dims() == old(grad).dims(),
            r is Ok <==> same_layout(self.params(), *old(grad)) && old(output_delta)@.len() == self@.len(),
            r is Ok ==> final(grad)@ == add_all(old(grad)@, old(output_delta)@),
            r is Err ==> r == Err::<(), LayerError>(LayerError::ShapeMismatch) && final(grad)@ == old(grad)@,
    {
        if !crate::layer::check_layout(&self.nodes, grad) || output_delta.data.len() != self.nodes.data.len() {
            return Err(LayerError::ShapeMismatch);
        }
        let n = self.nodes.data.len();
        let mut i: usize = 0;
        while i < n
            invariant
                n == self@.len(),
                n == output_delta@.len(),
                n == old(grad)@.len(),
                i <= n,
                grad.shape == old(grad).shape,
                grad@.len() == n,
                forall|j: int| 0 <= j < i ==> grad@[j] == T::spec_add(old(grad)@[j], output_delta@[j]),
                forall|j: int| i <= j < n ==> grad@[j] == old(grad)@[j],
            decreases n - i,
        {
            let g = grad.data[i];
            grad.data[i] = g.add(output_delta.data[i]);
            i = i + 1;
        }
        assert(grad@ =~= add_all(old(grad)@, output_delta@));
        Ok(())
    }
}

impl<T: Scalar> GradientDecent<T, Tensor<T, 4>> for BiasLayer<T> {
    /// Plain gradient descent on the offsets.
    fn grad_descent(&mut self, step: T, grad: &Tensor<T, 4>) -> (r: Result<(), LayerError>)
        ensures
            final(self).dims() == old(self).dims(),
            r is Ok <==> same_layout(old(self).params(), *grad),
            r is Ok ==> final(self)@ == descent_all(old(self)@, step, grad@),
            r is Err ==> r == Err::<(), LayerError>(LayerError::ShapeMismatch) && final(self)@ == old(self)@,
    {
        self.nodes.grad_descent(step, grad)
    }
}

impl<T: Scalar> GradientDescentMomentum<T, Tensor<T, 4>> for BiasLayer<T> {
    /// The momentum rule on the offsets.
    fn grad_descent_momentum(&mut self, step: T, grad: &Tensor<T, 4>, momentum: &mut Tensor<T, 4>) -> (r: Result<
        (),
        LayerError,
    >)
        ensures
            final(self).dims() == old(self).dims(),
            final(momentum).dims() == old(momentum).dims(),
            r is Ok <==> same_layout(old(self).params(), *grad) && same_layout(old(self).params(), *old(momentum)),
            r is Ok ==> final(self)@ == momentum_all(old(self)@, step, old(momentum)@, grad@),
            r is Ok ==> final(momentum)@ == grad@,
            r is Err ==> r == Err::<(), LayerError>(LayerError::ShapeMismatch) && final(self)@ == old(self)@
                && final(momentum)@ == old(momentum)@,
    {
        self.nodes.grad_descent_momentum(step, grad, momentum)
    }
}

impl<T: Scalar> GradientDescentAdam<T, u32, Tensor<T, 4>> for BiasLayer<T> {
    /// Adam on the offsets.
    fn grad_descent_adam(
        &mut self,
        step: T,
        time: u32,
        beta_m: T,
        beta_v: T,
        epsilon: T,
        grad: &Tensor<T, 4>,
        momentum: &mut Tensor<T, 4>,
        velocity: &mut Tensor<T, 4>,
    ) -> (r: Result<(), LayerError>)
        ensures
            final(self).dims() == old(self).dims(),
            final(momentum).dims() == old(momentum).dims(),
            final(velocity).dims() == old(velocity).dims(),
            r == Err::<(), LayerError>(LayerError::InvalidArgument) <==> time == 0,
            r is Ok <==> time != 0 && same_layout(old(self).params(), *grad) && same_layout(old(self).params(), *old(momentum))
                && same_layout(old(self).params(), *old(velocity)),
            r == Err::<(), LayerError>(LayerError::ShapeMismatch) <==> time != 0 && !(same_layout(
                old(self).params(),
                *grad,
            ) && same_layout(old(self).params(), *old(momentum)) && same_layout(
                old(self).params(),
                *old(velocity),
            )),
            r is Err ==> final(self)@ == old(self)@ && final(momentum)@ == old(momentum)@
                && final(velocity)@ == old(velocity)@,
            r is Ok ==> {
                &&& final(momentum)@ == adam_momentum_all(beta_m, old(momentum)@, grad@)
                &&& final(velocity)@ == adam_velocity_all(beta_v, old(velocity)@, grad@)
                &&& final(self)@ == adam_all(
                    old(self)@,
                    step,
                    time as nat,
                    beta_m,
                    beta_v,
                    epsilon,
                    final(momentum)@,
                    final(velocity)@,
                )
            },
    {
        self.nodes.grad_descent_adam(step, time, beta_m, beta_v, epsilon, grad, momentum, velocity)
    }
}

} // verus!
