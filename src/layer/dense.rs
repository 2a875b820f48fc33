//! The fully connected layer: a rank-2 weight matrix contracted with the
//! leading axis of the activations.

use vstd::prelude::*;

use crate::error::LayerError;
use crate::layer::node::NodeLayer;
use crate::layer::{
    adam_all, adam_momentum_all, adam_velocity_all, check_layout, descent_all, momentum_all, same_layout,
    Backprop, GradientDecent, GradientDescentAdam, GradientDescentMomentum, Inference, Layer,
};
use crate::scalar::Scalar;
use crate::tensor::{checked_size, contract_into, product, shape_size, Tensor};

verus! {

/// The element count of the axes after the leading one.
pub open spec fn inner_size(d: Seq<usize>) -> nat {
    shape_size(d.skip(1))
}

/// The shapes under which weights `w` (output features by input features)
/// map input `x` to output `y`: `x` leads with the input features, `y` with
/// the output features, and the trailing axes of the two agree.
pub open spec fn forward_shapes<T>(w: Tensor<T, 2>, x: Tensor<T, 5>, y: Tensor<T, 5>) -> bool {
    &&& w.wf()
    &&& x.wf()
    &&& y.wf()
    &&& x.dims()[0] == w.dims()[1]
    &&& y.dims()[0] == w.dims()[0]
    &&& y.dims().skip(1) == x.dims().skip(1)
    &&& inner_size(x.dims()) <= usize::MAX
}

/// The shapes under which the backward pass runs: `x` and `delta` fit the
/// weights as input and output do in the forward pass, the input delta has
/// the layout of `x`, and the gradient that of the weights.
pub open spec fn backward_shapes<T>(
    w: Tensor<T, 2>,
    x: Tensor<T, 5>,
    delta: Tensor<T, 5>,
    input_delta: Tensor<T, 5>,
    grad: Tensor<T, 2>,
) -> bool {
    &&& forward_shapes(w, x, delta)
    &&& same_layout(input_delta, x)
    &&& same_layout(grad, w)
}

/// The output of the forward pass: `y[i, r] = sum_j w[i, j] * x[j, r]`,
/// where `r` runs over the trailing axes.
pub open spec fn forward<T: Scalar>(w: Seq<T>, x: Seq<T>, outs: nat, ins: nat, inner: nat) -> Seq<T> {
    product(w, ins, 1, x, inner, 1, outs, ins, inner)
}

/// The weight gradient: `g[i, j] = sum_r delta[i, r] * x[j, r]`.
pub open spec fn weight_gradient<T: Scalar>(delta: Seq<T>, x: Seq<T>, outs: nat, ins: nat, inner: nat) -> Seq<T> {
    product(delta, inner, 1, x, 1, inner, outs, inner, ins)
}

/// The input delta: `d[j, r] = sum_i w[i, j] * delta[i, r]`.
pub open spec fn input_gradient<T: Scalar>(w: Seq<T>, delta: Seq<T>, outs: nat, ins: nat, inner: nat) -> Seq<T> {
    product(w, 1, ins, delta, inner, 1, ins, outs, inner)
}

proof fn lemma_leading(d: Seq<usize>)
    requires
        d.len() > 0,
    ensures
        shape_size(d) == d[0] as nat * shape_size(d.skip(1)),
{
}

proof fn lemma_matrix_size(d: Seq<usize>)
    requires
        d.len() == 2,
    ensures
        shape_size(d) == d[0] as nat * d[1] as nat,
{
    let t = d.skip(1);
    assert(t.skip(1) =~= Seq::<usize>::empty());
    assert(shape_size(t.skip(1)) == 1);
    assert(shape_size(t) == t[0] as nat * shape_size(t.skip(1)));
    assert(shape_size(d) == d[0] as nat * shape_size(t));
    assert(t[0] == d[1]);
}

proof fn lemma_last_index(r: int, k: int)
    requires
        r > 0,
        k > 0,
    ensures
        (r - 1) * k + (k - 1) < r * k,
        (k - 1) + (r - 1) * k < r * k,
{
    assert((r - 1) * k == r * k - k) by (nonlinear_arith);
}

/// The trailing four extents of a rank-5 shape.
fn trailing(d: &[usize; 5]) -> (r: [usize; 4])
    ensures
        r@ == d@.skip(1),
{
    let r = [d[1], d[2], d[3], d[4]];
    assert(r@ =~= d@.skip(1));
    r
}

/// Whether the tensor's element count is the product of its extents.
fn check_size<T, const R: usize>(t: &Tensor<T, R>) -> (r: bool)
    ensures
        r == t.wf(),
{
    let len = t.data.len();
    match checked_size(&t.shape) {
        Some(n) => n == len,
        None => false,
    }
}

/// Whether two rank-5 shapes agree after the leading axis.
fn same_trailing(a: &[usize; 5], b: &[usize; 5]) -> (r: bool)
    ensures
        r == (a@.skip(1) == b@.skip(1)),
{
    let ta = trailing(a);
    let tb = trailing(b);
    let r = ta[0] == tb[0] && ta[1] == tb[1] && ta[2] == tb[2] && ta[3] == tb[3];
    if r {
        assert(ta@ =~= tb@);
    } else {
        assert(ta@ != tb@ ==> a@.skip(1) != b@.skip(1));
    }
    r
}

/// A fully connected layer.
pub struct DenseLayer<T> {
    pub(crate) weights: Tensor<T, 2>,
}

impl<T> View for DenseLayer<T> {
    type V = Seq<T>;

    open(crate) spec fn view(&self) -> Seq<T> {
        self.weights@
    }
}

impl<T> DenseLayer<T> {
    /// The extents of the weights: output features, then input features.
    pub open(crate) spec fn dims(&self) -> Seq<usize> {
        self.weights.dims()
    }

    /// The weight tensor.
    pub open(crate) spec fn params(&self) -> Tensor<T, 2> {
        self.weights
    }

    /// A layer with the given extents and weights in row-major order; the
    /// element count must be the product of the extents.
    pub fn new(shape: [usize; 2], data: Vec<T>) -> (r: Result<Self, LayerError>)
        ensures
            r is Ok <==> data@.len() == shape_size(shape@),
            r is Ok ==> r->Ok_0.dims() == shape@ && r->Ok_0@ == data@,
            r is Err ==> r == Err::<Self, LayerError>(LayerError::ShapeMismatch),
    {
        match Tensor::new(shape, data) {
            Ok(weights) => Ok(DenseLayer { weights }),
            Err(e) => Err(e),
        }
    }

    /// The weights in row-major order.
    pub fn iter(&self) -> (r: &[T])
        ensures
            r@ == self@,
    {
        self.weights.iter()
    }

    /// The weights in row-major order, for writing; the extents stay.
    pub fn iter_mut(&mut self) -> (r: &mut [T])
        ensures
            r@ == old(self)@,
            final(self)@ == final(r)@,
            final(self).dims() == old(self).dims(),
    {
        self.weights.iter_mut()
    }
}

impl<T> Layer for DenseLayer<T> {

}

impl<T: Scalar> Inference<NodeLayer<T>, NodeLayer<T>> for DenseLayer<T> {
    /// Contracts the weights' input-feature axis with the input's leading
    /// axis. Fails with `ShapeMismatch`, leaving `output` as it was, where
    /// the shapes do not fit.
    fn inference(&self, input: &NodeLayer<T>, output: &mut NodeLayer<T>) -> (r: Result<(), LayerError>)
        ensures
            final(output).dims() == old(output).dims(),
            r is Ok <==> forward_shapes(self.params(), input.activations(), old(output).activations()),
            r is Ok ==> final(output)@ == forward(
                self@,
                input@,
                self.dims()[0] as nat,
                self.dims()[1] as nat,
                inner_size(input.dims()),
            ),
            r is Err ==> r == Err::<(), LayerError>(LayerError::ShapeMismatch) && final(output)@ == old(
                output,
            )@,
    {
        let w = &self.weights;
        let x = &input.nodes;
        if !check_size(w) || !check_size(x) || !check_size(&output.nodes) {
            return Err(LayerError::ShapeMismatch);
        }
        let outs = w.shape[0];
        let ins = w.shape[1];
        if x.shape[0] != ins || output.nodes.shape[0] != outs || !same_trailing(&x.shape, &output.nodes.shape) {
            return Err(LayerError::ShapeMismatch);
        }
        let inner = match checked_size(&trailing(&x.shape)) {
            Some(k) => k,
            None => {
                return Err(LayerError::ShapeMismatch);
            },
        };
        proof {
            lemma_matrix_size(w.shape@);
            lemma_leading(x.shape@);
            lemma_leading(output.nodes.shape@);
            if outs > 0 && ins > 0 {
                lemma_last_index(outs as int, ins as int);
            }
            if ins > 0 && inner > 0 {
                lemma_last_index(ins as int, inner as int);
            }
        }
        contract_into(&w.data, ins, 1, &x.data, inner, 1, outs, ins, inner, &mut output.nodes.data);
        Ok(())
    }
}

impl<T: Scalar> Backprop<NodeLayer<T>, NodeLayer<T>, Tensor<T, 5>, Tensor<T, 5>, Tensor<T, 2>> for DenseLayer<T> {
    /// Writes into `grad` the contraction of the output delta with the
    /// input over the trailing axes, and into `input_delta` the contraction
    /// of the weights' output-feature axis with the delta's leading axis,
    /// the adjoint of the forward pass. Fails with `ShapeMismatch`, changing nothing, where the
    /// shapes do not fit.
    fn backprop(
        &self,
        input: &NodeLayer<T>,
        output: &NodeLayer<T>,
        output_delta: &Tensor<T, 5>,
        input_delta: &mut Tensor<T, 5>,
        grad: &mut Tensor<T, 2>,
    ) -> (r: Result<(), LayerError>)
        ensures
            final(input_delta).dims() == old(input_delta).dims(),
            final(grad).dims() == old(grad).dims(),
            r is Ok <==> backward_shapes(
                self.params(),
                input.activations(),
                *output_delta,
                *old(input_delta),
                *old(grad),
            ),
            r is Ok ==> final(grad)@ == weight_gradient(
                output_delta@,
                input@,
                self.dims()[0] as nat,
                self.dims()[1] as nat,
                inner_size(input.dims()),
            ),
            r is Ok ==> final(input_delta)@ == input_gradient(
                self@,
                output_delta@,
                self.dims()[0] as nat,
                self.dims()[1] as nat,
                inner_size(input.dims()),
            ),
            r is Err ==> r == Err::<(), LayerError>(LayerError::ShapeMismatch) && final(grad)@ == old(grad)@
                && final(input_delta)@ == old(input_delta)@,
    {
        let w = &self.weights;
        let x = &input.nodes;
        if !check_size(w) || !check_size(x) || !check_size(output_delta) {
            return Err(LayerError::ShapeMismatch);
        }
        if !check_layout(input_delta, x) || !check_layout(grad, w) {
            return Err(LayerError::ShapeMismatch);
        }
        let outs = w.shape[0];
        let ins = w.shape[1];
        if x.shape[0] != ins || output_delta.shape[0] != outs || !same_trailing(&x.shape, &output_delta.shape) {
            return Err(LayerError::ShapeMismatch);
        }
        let inner = match checked_size(&trailing(&x.shape)) {
            Some(k) => k,
            None => {
                return Err(LayerError::ShapeMismatch);
            },
        };
        proof {
            lemma_matrix_size(w.shape@);
            lemma_leading(x.shape@);
            lemma_leading(output_delta.shape@);
            if outs > 0 && ins > 0 {
                lemma_last_index(outs as int, ins as int);
            }
            if ins > 0 && inner > 0 {
                lemma_last_index(ins as int, inner as int);
            }
            if outs > 0 && inner > 0 {
                lemma_last_index(outs as int, inner as int);
            }
            assert(outs * ins == ins * outs) by (nonlinear_arith);
        }
        contract_into(&output_delta.data, inner, 1, &x.data, 1, inner, outs, inner, ins, &mut grad.data);
        contract_into(&w.data, 1, ins, &output_delta.data, inner, 1, ins, outs, inner, &mut input_delta.data);
        Ok(())
    }
}

impl<T: Scalar> GradientDecent<T, Tensor<T, 2>> for DenseLayer<T> {
    /// Plain gradient descent on the weights.
    fn grad_descent(&mut self, step: T, grad: &Tensor<T, 2>) -> (r: Result<(), LayerError>)
        ensures
            final(self).dims() == old(self).dims(),
            r is Ok <==> same_layout(old(self).params(), *grad),
            r is Ok ==> final(self)@ == descent_all(old(self)@, step, grad@),
            r is Err ==> r == Err::<(), LayerError>(LayerError::ShapeMismatch) && final(self)@ == old(self)@,
    {
        self.weights.grad_descent(step, grad)
    }
}

impl<T: Scalar> GradientDescentMomentum<T, Tensor<T, 2>> for DenseLayer<T> {
    /// The momentum rule on the weights.
    fn grad_descent_momentum(&mut self, step: T, grad: &Tensor<T, 2>, momentum: &mut Tensor<T, 2>) -> (r: Result<
        (),
        LayerError,
    >)
        ensures
            final(self).dims() == old(self).dims(),
            final(momentum).dims() == old(momentum).dims(),
            r is Ok <==> same_layout(old(self).params(), *grad) && same_layout(old(self).params(), *old(momentum)),
            r is Ok ==> final(self)@ == momentum_all(old(self)@, step, old(momentum)@, grad@),
            r is Ok ==> final(momentum)@ == grad@,
            r is Err ==> r == Err::<(), LayerError>(LayerError::ShapeMismatch) && final(self)@ == old(self)@
                && final(momentum)@ == old(momentum)@,
    {
        self.weights.grad_descent_momentum(step, grad, momentum)
    }
}

impl<T: Scalar> GradientDescentAdam<T, u32, Tensor<T, 2>> for DenseLayer<T> {
    /// Adam on the weights.
    fn grad_descent_adam(
        &mut self,
        step: T,
        time: u32,
        beta_m: T,
        beta_v: T,
        epsilon: T,
        grad: &Tensor<T, 2>,
        momentum: &mut Tensor<T, 2>,
        velocity: &mut Tensor<T, 2>,
    ) -> (r: Result<(), LayerError>)
        ensures
            final(self).dims() == old(self).dims(),
            final(momentum).dims() == old(momentum).dims(),
            final(velocity).dims() == old(velocity).dims(),
            r == Err::<(), LayerError>(LayerError::InvalidArgument) <==> time == 0,
            r is Ok <==> time != 0 && same_layout(old(self).params(), *grad) && same_layout(old(self).params(), *old(momentum))
                && same_layout(old(self).params(), *old(velocity)),
            r == Err::<(), LayerError>(LayerError::ShapeMismatch) <==> time != 0 && !(same_layout(
                old(self).params(),
                *grad,
            ) && same_layout(old(self).params(), *old(momentum)) && same_layout(
                old(self).params(),
                *old(velocity),
            )),
            r is Err ==> final(self)@ == old(self)@ && final(momentum)@ == old(momentum)@
                && final(velocity)@ == old(velocity)@,
            r is Ok ==> {
                &&& final(momentum)@ == adam_momentum_all(beta_m, old(momentum)@, grad@)
                &&& final(velocity)@ == adam_velocity_all(beta_v, old(velocity)@, grad@)
                &&& final(self)@ == adam_all(
                    old(self)@,
                    step,
                    time as nat,
                    beta_m,
                    beta_v,
                    epsilon,
                    final(momentum)@,
                    final(velocity)@,
                )
            },
    {
        self.weights.grad_descent_adam(step, time, beta_m, beta_v, epsilon, grad, momentum, velocity)
    }
}

} // verus!
