//! The operations that layers offer, and the three update rules shared by
//! every parameter tensor.

use vstd::prelude::*;

use crate::error::LayerError;
use crate::scalar::{pow, spec_pow, Scalar};
use crate::tensor::Tensor;

pub mod bias;
pub mod dense;
pub mod node;
pub mod normalization;
pub mod softmax;

verus! {

/// Forward pass: writes the layer's output for an input.
pub trait Inference<Input, Output> {
    fn inference(&self, input: &Input, output: &mut Output) -> Result<(), LayerError>;
}

/// Forward pass that overwrites its input with the output.
pub trait InferenceAssign<Input> {
    fn inference_assign(&self, input: &mut Input) -> Result<(), LayerError>;
}

/// Backward pass: from the gradient at the output, the gradient at the
/// input and the gradient of the parameters.
pub trait Backprop<Input, Output, OutputDelta, InputDelta, Gradient> {
    fn backprop(
        &self,
        input: &Input,
        output: &Output,
        output_delta: &OutputDelta,
        input_delta: &mut InputDelta,
        grad: &mut Gradient,
    ) -> Result<(), LayerError>;
}

/// Backward pass in place: the output delta becomes the input delta, and
/// the gradient of the parameters accumulates.
pub trait BackpropAssign<Output, OutputDelta, Gradient> {
    fn backprop_assign(&self, output: &Output, output_delta: &mut OutputDelta, grad: &mut Gradient) -> Result<
        (),
        LayerError,
    >;
}

/// Plain gradient descent: `p += step * g`.
pub trait GradientDecent<T, Gradient> {
    fn grad_descent(&mut self, step: T, grad: &Gradient) -> Result<(), LayerError>;
}

/// Gradient descent with momentum: `p += step * (m + g)`, then `m = g`.
///
/// The momentum buffer keeps the latest gradient, not a decayed average of
/// the gradients: each step moves by the sum of the last two gradients.
pub trait GradientDescentMomentum<T, Gradient> {
    fn grad_descent_momentum(&mut self, step: T, grad: &Gradient, momentum: &mut Gradient) -> Result<(), LayerError>;
}

/// Adam: bias-corrected running first and second moments of the gradient.
/// The time step counts from one; zero would make the corrections vanish.
pub trait GradientDescentAdam<T, Time, Gradient> {
    fn grad_descent_adam(
        &mut self,
        step: T,
        time: Time,
        beta_m: T,
        beta_v: T,
        epsilon: T,
        grad: &Gradient,
        momentum: &mut Gradient,
        velocity: &mut Gradient,
    ) -> Result<(), LayerError>;
}

/// Marks the layer kinds.
pub trait Layer {}

/// The two tensors have the same extents and the same element count.
pub open spec fn same_layout<T, const R: usize>(a: Tensor<T, R>, b: Tensor<T, R>) -> bool {
    a.dims() == b.dims() && a@.len() == b@.len()
}

/// Whether two tensors have the same extents and element count.
pub fn check_layout<T, const R: usize>(a: &Tensor<T, R>, b: &Tensor<T, R>) -> (r: bool)
    ensures
        r == same_layout(*a, *b),
{
    if a.data.len() != b.data.len() {
        return false;
    }
    let mut k: usize = 0;
    while k < R
        invariant
            k <= R,
            a.shape@.len() == R,
            b.shape@.len() == R,
            forall|i: int| 0 <= i < k ==> a.shape@[i] == b.shape@[i],
        decreases R - k,
    {
        if a.shape[k] != b.shape[k] {
            return false;
        }
        k = k + 1;
    }
    assert(a.shape@ =~= b.shape@);
    true
}

/// One element under plain gradient descent.
pub open spec fn descent_step<T: Scalar>(p: T, step: T, g: T) -> T {
    T::spec_add(p, T::spec_mul(step, g))
}

/// One element under the momentum rule, with the momentum held before.
pub open spec fn momentum_step<T: Scalar>(p: T, step: T, m: T, g: T) -> T {
    T::spec_add(p, T::spec_mul(step, T::spec_add(m, g)))
}

/// The running average `beta * a + (1 - beta) * x`.
pub open spec fn running_average<T: Scalar>(beta: T, a: T, x: T) -> T {
    T::spec_add(T::spec_mul(beta, a), T::spec_mul(T::spec_sub(T::spec_one(), beta), x))
}

/// The bias correction `1 - beta^time`.
pub open spec fn bias_correction<T: Scalar>(beta: T, time: nat) -> T {
    T::spec_sub(T::spec_one(), spec_pow(beta, time))
}

/// The first moment after one Adam step.
pub open spec fn adam_momentum<T: Scalar>(beta_m: T, m: T, g: T) -> T {
    running_average(beta_m, m, g)
}

/// The second moment after one Adam step.
pub open spec fn adam_velocity<T: Scalar>(beta_v: T, v: T, g: T) -> T {
    running_average(beta_v, v, T::spec_mul(g, g))
}

/// One parameter under Adam, from the moments after the step:
/// `p + step * (m / cm) / (sqrt(v / cv) + epsilon)`.
pub open spec fn adam_step<T: Scalar>(p: T, step: T, m: T, v: T, cm: T, cv: T, epsilon: T) -> T {
    T::spec_add(
        p,
        T::spec_mul(step, T::spec_div(T::spec_div(m, cm), T::spec_add(T::spec_sqrt(T::spec_div(v, cv)), epsilon))),
    )
}

/// Plain gradient descent on every element.
pub open spec fn descent_all<T: Scalar>(p: Seq<T>, step: T, g: Seq<T>) -> Seq<T> {
    Seq::new(p.len(), |i: int| descent_step(p[i], step, g[i]))
}

/// The momentum rule on every element.
pub open spec fn momentum_all<T: Scalar>(p: Seq<T>, step: T, m: Seq<T>, g: Seq<T>) -> Seq<T> {
    Seq::new(p.len(), |i: int| momentum_step(p[i], step, m[i], g[i]))
}

/// The first moments after one Adam step.
pub open spec fn adam_momentum_all<T: Scalar>(beta_m: T, m: Seq<T>, g: Seq<T>) -> Seq<T> {
    Seq::new(g.len(), |i: int| adam_momentum(beta_m, m[i], g[i]))
}

/// The second moments after one Adam step.
pub open spec fn adam_velocity_all<T: Scalar>(beta_v: T, v: Seq<T>, g: Seq<T>) -> Seq<T> {
    Seq::new(g.len(), |i: int| adam_velocity(beta_v, v[i], g[i]))
}

/// The parameters after one Adam step at `time`, from the moments after it.
pub open spec fn adam_all<T: Scalar>(
    p: Seq<T>,
    step: T,
    time: nat,
    beta_m: T,
    beta_v: T,
    epsilon: T,
    m: Seq<T>,
    v: Seq<T>,
) -> Seq<T> {
    Seq::new(
        p.len(),
        |i: int|
            adam_step(
                p[i],
                step,
                m[i],
                v[i],
                bias_correction(beta_m, time),
                bias_correction(beta_v, time),
                epsilon,
            ),
    )
}

impl<T: Scalar, const R: usize> GradientDecent<T, Tensor<T, R>> for Tensor<T, R> {
    /// Fails with `ShapeMismatch`, changing nothing, where the gradient's
    /// layout differs from the parameters'.
    fn grad_descent(&mut self, step: T, grad: &Tensor<T, R>) -> (r: Result<(), LayerError>)
        ensures
            final(self).dims() == old(self).dims(),
            r is Ok <==> same_layout(*old(self), *grad),
            r is Ok ==> final(self)@ == descent_all(old(self)@, step, grad@),
            r is Err ==> r == Err::<(), LayerError>(LayerError::ShapeMismatch) && final(self)@ == old(self)@,
    {
        if !check_layout(self, grad) {
            return Err(LayerError::ShapeMismatch);
        }
        let n = self.data.len();
        let mut i: usize = 0;
        while i < n
            invariant
                n == old(self)@.len(),
                n == grad@.len(),
                i <= n,
                self.shape == old(self).shape,
                self@.len() == n,
                forall|j: int| 0 <= j < i ==> self@[j] == descent_step(old(self)@[j], step, grad@[j]),
                forall|j: int| i <= j < n ==> self@[j] == old(self)@[j],
            decreases n - i,
        {
            let p = self.data[i];
            self.data[i] = p.add(step.mul(grad.data[i]));
            i = i + 1;
        }
        assert(self@ =~= Seq::new(n as nat, |j: int| descent_step(old(self)@[j], step, grad@[j])));
        Ok(())
    }
}

impl<T: Scalar, const R: usize> GradientDescentMomentum<T, Tensor<T, R>> for Tensor<T, R> {
    /// The momentum tensor ends holding the gradient. Fails with
    /// `ShapeMismatch`, changing nothing, where the three layouts differ.
    fn grad_descent_momentum(&mut self, step: T, grad: &Tensor<T, R>, momentum: &mut Tensor<T, R>) -> (r: Result<
        (),
        LayerError,
    >)
        ensures
            final(self).dims() == old(self).dims(),
            final(momentum).dims() == old(momentum).dims(),
            r is Ok <==> same_layout(*old(self), *grad) && same_layout(*old(self), *old(momentum)),
            r is Ok ==> final(self)@ == momentum_all(old(self)@, step, old(momentum)@, grad@),
            r is Ok ==> final(momentum)@ == grad@,
            r is Err ==> r == Err::<(), LayerError>(LayerError::ShapeMismatch) && final(self)@ == old(self)@
                && final(momentum)@ == old(momentum)@,
    {
        if !check_layout(self, grad) || !check_layout(self, momentum) {
            return Err(LayerError::ShapeMismatch);
        }
        let n = self.data.len();
        let mut i: usize = 0;
        while i < n
            invariant
                n == old(self)@.len(),
                n == grad@.len(),
                n == old(momentum)@.len(),
                i <= n,
                self.shape == old(self).shape,
                momentum.shape == old(momentum).shape,
                self@.len() == n,
                momentum@.len() == n,
                forall|j: int|
                    0 <= j < i ==> self@[j] == momentum_step(old(self)@[j], step, old(momentum)@[j], grad@[j]),
                forall|j: int| 0 <= j < i ==> momentum@[j] == grad@[j],
                forall|j: int| i <= j < n ==> self@[j] == old(self)@[j],
                forall|j: int| i <= j < n ==> momentum@[j] == old(momentum)@[j],
            decreases n - i,
        {
            let p = self.data[i];
            let g = grad.data[i];
            let m = momentum.data[i];
            self.data[i] = p.add(step.mul(m.add(g)));
            momentum.data[i] = g;
            i = i + 1;
        }
        assert(self@ =~= Seq::new(
            n as nat,
            |j: int| momentum_step(old(self)@[j], step, old(momentum)@[j], grad@[j]),
        ));
        assert(momentum@ =~= grad@);
        Ok(())
    }
}

impl<T: Scalar, const R: usize> GradientDescentAdam<T, u32, Tensor<T, R>> for Tensor<T, R> {
    /// Fails with `InvalidArgument` where `time` is zero, and otherwise with
    /// `ShapeMismatch` where the four layouts differ; a failure changes
    /// nothing.
    fn grad_descent_adam(
        &mut self,
        step: T,
        time: u32,
        beta_m: T,
        beta_v: T,
        epsilon: T,
        grad: &Tensor<T, R>,
        momentum: &mut Tensor<T, R>,
        velocity: &mut Tensor<T, R>,
    ) -> (r: Result<(), LayerError>)
        ensures
            final(self).dims() == old(self).dims(),
            final(momentum).dims() == old(momentum).dims(),
            final(velocity).dims() == old(velocity).dims(),
            r == Err::<(), LayerError>(LayerError::InvalidArgument) <==> time == 0,
            r is Ok <==> time != 0 && same_layout(*old(self), *grad) && same_layout(*old(self), *old(momentum))
                && same_layout(*old(self), *old(velocity)),
            r == Err::<(), LayerError>(LayerError::ShapeMismatch) <==> time != 0 && !(same_layout(
                *old(self),
                *grad,
            ) && same_layout(*old(self), *old(momentum)) && same_layout(*old(self), *old(velocity))),
            r is Err ==> final(self)@ == old(self)@ && final(momentum)@ == old(momentum)@
                && final(velocity)@ == old(velocity)@,
            r is Ok ==> {
                &&& final(momentum)@ == adam_momentum_all(beta_m, old(momentum)@, grad@)
                &&& final(velocity)@ == adam_velocity_all(beta_v, old(velocity)@, grad@)
                &&& final(self)@ == adam_all(
                    old(self)@,
                    step,
                    time as nat,
                    beta_m,
                    beta_v,
                    epsilon,
                    final(momentum)@,
                    final(velocity)@,
                )
            },
    {
        if time == 0 {
            return Err(LayerError::InvalidArgument);
        }
        if !check_layout(self, grad) || !check_layout(self, momentum) || !check_layout(self, velocity) {
            return Err(LayerError::ShapeMismatch);
        }
        let one = T::one();
        let cm = one.sub(pow(beta_m, time));
        let cv = one.sub(pow(beta_v, time));
        let beta_m_sub = one.sub(beta_m);
        let beta_v_sub = one.sub(beta_v);
        let n = self.data.len();
        let mut i: usize = 0;
        while i < n
            invariant
                n == old(self)@.len(),
                n == grad@.len(),
                n == old(momentum)@.len(),
                n == old(velocity)@.len(),
                i <= n,
                self.shape == old(self).shape,
                momentum.shape == old(momentum).shape,
                velocity.shape == old(velocity).shape,
                self@.len() == n,
                momentum@.len() == n,
                velocity@.len() == n,
                one == T::spec_one(),
                cm == bias_correction(beta_m, time as nat),
                cv == bias_correction(beta_v, time as nat),
                beta_m_sub == T::spec_sub(T::spec_one(), beta_m),
                beta_v_sub == T::spec_sub(T::spec_one(), beta_v),
                forall|j: int| 0 <= j < i ==> momentum@[j] == adam_momentum(beta_m, old(momentum)@[j], grad@[j]),
                forall|j: int| 0 <= j < i ==> velocity@[j] == adam_velocity(beta_v, old(velocity)@[j], grad@[j]),
                forall|j: int|
                    0 <= j < i ==> self@[j] == adam_step(
                        old(self)@[j],
                        step,
                        momentum@[j],
                        velocity@[j],
                        cm,
                        cv,
                        epsilon,
                    ),
                forall|j: int| i <= j < n ==> self@[j] == old(self)@[j],
                forall|j: int| i <= j < n ==> momentum@[j] == old(momentum)@[j],
                forall|j: int| i <= j < n ==> velocity@[j] == old(velocity)@[j],
            decreases n - i,
        {
            let g = grad.data[i];
            let m = beta_m.mul(momentum.data[i]).add(beta_m_sub.mul(g));
            let v = beta_v.mul(velocity.data[i]).add(beta_v_sub.mul(g.mul(g)));
            momentum.data[i] = m;
            velocity.data[i] = v;
            let momentum_hat = m.div(cm);
            let velocity_hat = v.div(cv);
            let p = self.data[i];
            self.data[i] = p.add(step.mul(momentum_hat.div(velocity_hat.sqrt().add(epsilon))));
            i = i + 1;
        }
        assert(momentum@ =~= Seq::new(n as nat, |j: int| adam_momentum(beta_m, old(momentum)@[j], grad@[j])));
        assert(velocity@ =~= Seq::new(n as nat, |j: int| adam_velocity(beta_v, old(velocity)@[j], grad@[j])));
        assert(self@ =~= Seq::new(
            n as nat,
            |j: int| adam_step(old(self)@[j], step, momentum@[j], velocity@[j], cm, cv, epsilon),
        ));
        Ok(())
    }
}

} // verus!
