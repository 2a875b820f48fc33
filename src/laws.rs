//! Properties of the update rules and of the dense layer, stated over the
//! spec functions that the operations' contracts use.

use vstd::prelude::*;

use crate::layer::{
    adam_all, adam_momentum, adam_momentum_all, adam_velocity, adam_velocity_all, bias_correction,
    descent_all, momentum_all, running_average,
};
use crate::layer::dense::{forward, weight_gradient};
use crate::scalar::{spec_pow, Scalar};
use crate::tensor::product_entry;

verus! {

/// Every element of `s` is zero.
pub open spec fn all_zero<T: Scalar>(s: Seq<T>) -> bool {
    forall|i: int| 0 <= i < s.len() ==> s[i] == T::spec_zero()
}

/// Plain gradient descent with an all-zero gradient leaves the parameters
/// unchanged.
pub proof fn lemma_descent_zero_gradient<T: Scalar>(p: Seq<T>, step: T, g: Seq<T>)
    requires
        g.len() == p.len(),
        all_zero(g),
    ensures
        descent_all(p, step, g) == p,
{
    assert forall|i: int| 0 <= i < p.len() implies descent_all(p, step, g)[i] == p[i] by {
        T::lemma_mul_zero(step);
        T::lemma_add_zero(p[i]);
    }
    assert(descent_all(p, step, g) =~= p);
}

/// The momentum rule with an all-zero gradient and an all-zero momentum
/// leaves the parameters unchanged. (With a nonzero momentum the rule moves
/// the parameters by `step * momentum` whatever the gradient.)
pub proof fn lemma_momentum_zero_gradient<T: Scalar>(p: Seq<T>, step: T, m: Seq<T>, g: Seq<T>)
    requires
        g.len() == p.len(),
        m.len() == p.len(),
        all_zero(g),
        all_zero(m),
    ensures
        momentum_all(p, step, m, g) == p,
{
    assert forall|i: int| 0 <= i < p.len() implies momentum_all(p, step, m, g)[i] == p[i] by {
        T::lemma_add_zero(T::spec_zero());
        T::lemma_mul_zero(step);
        T::lemma_add_zero(p[i]);
    }
    assert(momentum_all(p, step, m, g) =~= p);
}

/// Adam with an all-zero gradient and an all-zero first moment keeps the
/// first moment at zero and leaves the parameters unchanged, whatever the
/// second moment, the time step and the coefficients.
pub proof fn lemma_adam_zero_gradient<T: Scalar>(
    p: Seq<T>,
    step: T,
    time: nat,
    beta_m: T,
    beta_v: T,
    epsilon: T,
    m: Seq<T>,
    v: Seq<T>,
    g: Seq<T>,
)
    requires
        g.len() == p.len(),
        m.len() == p.len(),
        v.len() == p.len(),
        all_zero(g),
        all_zero(m),
    ensures
        all_zero(adam_momentum_all(beta_m, m, g)),
        adam_all(
            p,
            step,
            time,
            beta_m,
            beta_v,
            epsilon,
            adam_momentum_all(beta_m, m, g),
            adam_velocity_all(beta_v, v, g),
        ) == p,
{
    let m1 = adam_momentum_all(beta_m, m, g);
    let v1 = adam_velocity_all(beta_v, v, g);
    let z = T::spec_zero();
    assert forall|i: int| 0 <= i < p.len() implies m1[i] == z by {
        T::lemma_mul_zero(beta_m);
        T::lemma_mul_zero(T::spec_sub(T::spec_one(), beta_m));
        T::lemma_add_zero(z);
    }
    let q = adam_all(p, step, time, beta_m, beta_v, epsilon, m1, v1);
    assert forall|i: int| 0 <= i < p.len() implies q[i] == p[i] by {
        let cm = crate::layer::bias_correction(beta_m, time);
        let cv = crate::layer::bias_correction(beta_v, time);
        T::lemma_zero_div(cm);
        T::lemma_zero_div(T::spec_add(T::spec_sqrt(T::spec_div(v1[i], cv)), epsilon));
        T::lemma_mul_zero(step);
        T::lemma_add_zero(p[i]);
    }
    assert(q =~= p);
}

/// Multiplication distributes over subtraction.
proof fn lemma_mul_sub<T: Scalar>(a: T, b: T, c: T)
    ensures
        T::spec_mul(a, T::spec_sub(b, c)) == T::spec_sub(T::spec_mul(a, b), T::spec_mul(a, c)),
{
    let s = T::spec_sub(b, c);
    T::lemma_sub_inverse(b, c);
    T::lemma_distrib(a, s, c);
    T::lemma_sub_inverse(T::spec_mul(a, s), T::spec_mul(a, c));
}

/// Multiplication distributes over addition from the right.
proof fn lemma_distrib_right<T: Scalar>(p: T, q: T, x: T)
    ensures
        T::spec_mul(T::spec_add(p, q), x) == T::spec_add(T::spec_mul(p, x), T::spec_mul(q, x)),
{
    T::lemma_mul_comm(T::spec_add(p, q), x);
    T::lemma_distrib(x, p, q);
    T::lemma_mul_comm(x, p);
    T::lemma_mul_comm(x, q);
}

/// `beta * (1 - p) + (1 - beta) == 1 - p * beta`.
proof fn lemma_correction_step<T: Scalar>(beta: T, p: T)
    ensures
        T::spec_add(T::spec_mul(beta, T::spec_sub(T::spec_one(), p)), T::spec_sub(T::spec_one(), beta))
            == T::spec_sub(T::spec_one(), T::spec_mul(p, beta)),
{
    let one = T::spec_one();
    let q = T::spec_mul(p, beta);
    lemma_mul_sub(beta, one, p);
    T::lemma_mul_one(beta);
    T::lemma_mul_comm(beta, p);
    let d = T::spec_sub(beta, q);
    let e = T::spec_sub(one, beta);
    let x = T::spec_add(d, e);
    T::lemma_add_assoc(d, e, q);
    T::lemma_add_comm(e, q);
    T::lemma_add_assoc(d, q, e);
    T::lemma_sub_inverse(beta, q);
    T::lemma_add_comm(beta, e);
    T::lemma_sub_inverse(one, beta);
    assert(T::spec_add(x, q) == one);
    T::lemma_sub_inverse(x, q);
}

/// The value of a running average with coefficient `beta` after `t` steps
/// from `a0`, each step averaging in the same `x`.
pub open spec fn average_after<T: Scalar>(beta: T, a0: T, x: T, t: nat) -> T
    decreases t,
{
    if t == 0 {
        a0
    } else {
        running_average(beta, average_after(beta, a0, x, (t - 1) as nat), x)
    }
}

/// `1 - 1 == 0`.
proof fn lemma_one_minus_one<T: Scalar>()
    ensures
        T::spec_sub(T::spec_one(), T::spec_one()) == T::spec_zero(),
{
    T::lemma_add_comm(T::spec_zero(), T::spec_one());
    T::lemma_add_zero(T::spec_one());
    T::lemma_sub_inverse(T::spec_zero(), T::spec_one());
}

proof fn lemma_average_after<T: Scalar>(beta: T, a0: T, x: T, t: nat)
    ensures
        average_after(beta, a0, x, t) == T::spec_add(
            T::spec_mul(spec_pow(beta, t), a0),
            T::spec_mul(bias_correction(beta, t), x),
        ),
    decreases t,
{
    let one = T::spec_one();
    if t == 0 {
        T::lemma_mul_comm(one, a0);
        T::lemma_mul_one(a0);
        lemma_one_minus_one::<T>();
        T::lemma_mul_zero(x);
        T::lemma_add_zero(a0);
    } else {
        let t1 = (t - 1) as nat;
        lemma_average_after(beta, a0, x, t1);
        let p = spec_pow(beta, t1);
        let c = bias_correction(beta, t1);
        let e = T::spec_sub(one, beta);
        let pa = T::spec_mul(p, a0);
        let cx = T::spec_mul(c, x);
        T::lemma_distrib(beta, pa, cx);
        T::lemma_mul_assoc(beta, p, a0);
        T::lemma_mul_comm(beta, p);
        T::lemma_mul_assoc(beta, c, x);
        let a = T::spec_mul(spec_pow(beta, t), a0);
        let b = T::spec_mul(T::spec_mul(beta, c), x);
        let ex = T::spec_mul(e, x);
        T::lemma_add_assoc(a, b, ex);
        lemma_distrib_right(T::spec_mul(beta, c), e, x);
        lemma_correction_step(beta, p);
    }
}

/// The first moment after `t` Adam steps from `m0`, with the same gradient
/// `g` at every step.
pub open spec fn momentum_after<T: Scalar>(beta_m: T, m0: T, g: T, t: nat) -> T
    decreases t,
{
    if t == 0 {
        m0
    } else {
        adam_momentum(beta_m, momentum_after(beta_m, m0, g, (t - 1) as nat), g)
    }
}

/// The second moment after `t` Adam steps from `v0`, with the same gradient
/// `g` at every step.
pub open spec fn velocity_after<T: Scalar>(beta_v: T, v0: T, g: T, t: nat) -> T
    decreases t,
{
    if t == 0 {
        v0
    } else {
        adam_velocity(beta_v, velocity_after(beta_v, v0, g, (t - 1) as nat), g)
    }
}

proof fn lemma_moments_are_averages<T: Scalar>(beta_m: T, beta_v: T, m0: T, v0: T, g: T, t: nat)
    ensures
        momentum_after(beta_m, m0, g, t) == average_after(beta_m, m0, g, t),
        velocity_after(beta_v, v0, g, t) == average_after(beta_v, v0, T::spec_mul(g, g), t),
    decreases t,
{
    if t > 0 {
        lemma_moments_are_averages(beta_m, beta_v, m0, v0, g, (t - 1) as nat);
    }
}

/// Under a constant gradient `g`, Adam's moments after `t` steps from `m0`
/// and `v0` are exactly `beta_m^t * m0 + (1 - beta_m^t) * g` and
/// `beta_v^t * v0 + (1 - beta_v^t) * g^2`: what separates a moment from
/// `(1 - beta^t)` times its target is the starting value scaled by
/// `beta^t`.
pub proof fn lemma_adam_bias_correction<T: Scalar>(beta_m: T, beta_v: T, m0: T, v0: T, g: T, t: nat)
    ensures
        momentum_after(beta_m, m0, g, t) == T::spec_add(
            T::spec_mul(spec_pow(beta_m, t), m0),
            T::spec_mul(bias_correction(beta_m, t), g),
        ),
        velocity_after(beta_v, v0, g, t) == T::spec_add(
            T::spec_mul(spec_pow(beta_v, t), v0),
            T::spec_mul(bias_correction(beta_v, t), T::spec_mul(g, g)),
        ),
{
    lemma_moments_are_averages(beta_m, beta_v, m0, v0, g, t);
    lemma_average_after(beta_m, m0, g, t);
    lemma_average_after(beta_v, v0, T::spec_mul(g, g), t);
}

/// Started at zero, the moments after `t` steps under a constant gradient
/// `g` are exactly `(1 - beta_m^t) * g` and `(1 - beta_v^t) * g^2`: each
/// falls short of its target by the very factor that its bias correction
/// divides out.
pub proof fn lemma_adam_bias_correction_from_zero<T: Scalar>(beta_m: T, beta_v: T, g: T, t: nat)
    ensures
        momentum_after(beta_m, T::spec_zero(), g, t) == T::spec_mul(bias_correction(beta_m, t), g),
        velocity_after(beta_v, T::spec_zero(), g, t) == T::spec_mul(
            bias_correction(beta_v, t),
            T::spec_mul(g, g),
        ),
{
    let z = T::spec_zero();
    lemma_adam_bias_correction(beta_m, beta_v, z, z, g, t);
    T::lemma_mul_zero(spec_pow(beta_m, t));
    T::lemma_mul_zero(spec_pow(beta_v, t));
    let mc = T::spec_mul(bias_correction(beta_m, t), g);
    let vc = T::spec_mul(bias_correction(beta_v, t), T::spec_mul(g, g));
    T::lemma_add_comm(z, mc);
    T::lemma_add_zero(mc);
    T::lemma_add_comm(z, vc);
    T::lemma_add_zero(vc);
}

/// `f(0) + f(1) + ... + f(k - 1)`, summed from the left.
pub open spec fn sum_of<T: Scalar>(f: spec_fn(int) -> T, k: nat) -> T
    decreases k,
{
    if k == 0 {
        T::spec_zero()
    } else {
        T::spec_add(sum_of(f, (k - 1) as nat), f(k - 1))
    }
}

proof fn lemma_sum_ext<T: Scalar>(f: spec_fn(int) -> T, g: spec_fn(int) -> T, k: nat)
    requires
        forall|t: int| 0 <= t < k ==> #[trigger] f(t) == g(t),
    ensures
        sum_of(f, k) == sum_of(g, k),
    decreases k,
{
    if k > 0 {
        lemma_sum_ext(f, g, (k - 1) as nat);
    }
}

/// `(a + b) + (c + d) == (a + c) + (b + d)`.
proof fn lemma_add_swap<T: Scalar>(a: T, b: T, c: T, d: T)
    ensures
        T::spec_add(T::spec_add(a, b), T::spec_add(c, d)) == T::spec_add(T::spec_add(a, c), T::spec_add(b, d)),
{
    T::lemma_add_assoc(a, b, T::spec_add(c, d));
    T::lemma_add_assoc(b, c, d);
    T::lemma_add_comm(b, c);
    T::lemma_add_assoc(c, b, d);
    T::lemma_add_assoc(a, c, T::spec_add(b, d));
}

proof fn lemma_sum_add<T: Scalar>(f: spec_fn(int) -> T, g: spec_fn(int) -> T, k: nat)
    ensures
        sum_of(|t: int| T::spec_add(f(t), g(t)), k) == T::spec_add(sum_of(f, k), sum_of(g, k)),
    decreases k,
{
    if k == 0 {
        T::lemma_add_zero(T::spec_zero());
    } else {
        lemma_sum_add(f, g, (k - 1) as nat);
        lemma_add_swap(sum_of(f, (k - 1) as nat), sum_of(g, (k - 1) as nat), f(k - 1), g(k - 1));
    }
}

proof fn lemma_sum_scale<T: Scalar>(h: T, f: spec_fn(int) -> T, k: nat)
    ensures
        sum_of(|t: int| T::spec_mul(h, f(t)), k) == T::spec_mul(h, sum_of(f, k)),
    decreases k,
{
    if k == 0 {
        T::lemma_mul_zero(h);
    } else {
        lemma_sum_scale(h, f, (k - 1) as nat);
        T::lemma_distrib(h, sum_of(f, (k - 1) as nat), f(k - 1));
    }
}

/// Changing one term of a sum by `d` changes the sum by `d`.
proof fn lemma_sum_single<T: Scalar>(f: spec_fn(int) -> T, g: spec_fn(int) -> T, j: int, d: T, k: nat)
    requires
        0 <= j < k,
        forall|t: int| 0 <= t < k && t != j ==> #[trigger] g(t) == f(t),
        g(j) == T::spec_add(f(j), d),
    ensures
        sum_of(g, k) == T::spec_add(sum_of(f, k), d),
    decreases k,
{
    let k1 = (k - 1) as nat;
    if j == k - 1 {
        lemma_sum_ext(f, g, k1);
        T::lemma_add_assoc(sum_of(f, k1), f(j), d);
    } else {
        lemma_sum_single(f, g, j, d, k1);
        T::lemma_add_assoc(sum_of(f, k1), d, f(k - 1));
        T::lemma_add_comm(d, f(k - 1));
        T::lemma_add_assoc(sum_of(f, k1), f(k - 1), d);
    }
}

proof fn lemma_entry_sum<T: Scalar>(
    a: Seq<T>,
    ai: nat,
    ak: nat,
    b: Seq<T>,
    bk: nat,
    bc: nat,
    i: int,
    c: int,
    k: nat,
)
    ensures
        product_entry(a, ai, ak, b, bk, bc, i, c, k) == sum_of(
            |t: int| T::spec_mul(a[i * ai + t * ak], b[t * bk + c * bc]),
            k,
        ),
    decreases k,
{
    if k > 0 {
        lemma_entry_sum(a, ai, ak, b, bk, bc, i, c, (k - 1) as nat);
    }
}

proof fn lemma_flat(i: int, c: int, rows: int, cols: int)
    requires
        0 <= i < rows,
        0 <= c < cols,
    ensures
        0 <= i * cols + c < rows * cols,
        (i * cols + c) / cols == i,
        (i * cols + c) % cols == c,
{
    assert(0 <= i * cols + c < rows * cols) by (nonlinear_arith)
        requires
            0 <= i < rows,
            0 <= c < cols,
    ;
    vstd::arithmetic::div_mod::lemma_fundamental_div_mod_converse(i * cols + c, cols, i, c);
}

/// The loss contributed by row `i` of `y`, weighted by `delta`.
pub open spec fn row_loss<T: Scalar>(delta: Seq<T>, y: Seq<T>, cols: nat, i: int) -> T {
    sum_of(|c: int| T::spec_mul(delta[i * cols + c], y[i * cols + c]), cols)
}

/// The linear loss `sum_p delta[p] * y[p]` over a `rows` by `cols` output,
/// summed row by row.
pub open spec fn linear_loss<T: Scalar>(delta: Seq<T>, y: Seq<T>, rows: nat, cols: nat) -> T {
    sum_of(|i: int| row_loss(delta, y, cols, i), rows)
}

/// The forward entry `(i, c)` of the dense layer as a sum over inputs.
proof fn lemma_forward_entry<T: Scalar>(w: Seq<T>, x: Seq<T>, outs: nat, ins: nat, inner: nat, i: int, c: int)
    requires
        0 <= i < outs,
        0 <= c < inner,
    ensures
        forward(w, x, outs, ins, inner).len() == outs * inner,
        forward(w, x, outs, ins, inner)[i * inner + c] == sum_of(
            |t: int| T::spec_mul(w[i * ins + t * 1], x[t * inner + c * 1]),
            ins,
        ),
{
    lemma_flat(i, c, outs as int, inner as int);
    lemma_entry_sum(w, ins, 1, x, inner, 1, i, c, ins);
}

/// Finite differences of the dense layer's linear loss: raising the weight
/// at row `a`, column `b` by `h` raises the loss `sum delta * (w x)` by
/// exactly `h` times the entry `(a, b)` of the weight gradient that the
/// backward pass computes from `delta` and `x`. The loss is linear in each
/// weight, so this is the adjoint relation with no approximation.
pub proof fn lemma_dense_gradient_finite_difference<T: Scalar>(
    w: Seq<T>,
    x: Seq<T>,
    delta: Seq<T>,
    outs: nat,
    ins: nat,
    inner: nat,
    a: int,
    b: int,
    h: T,
)
    requires
        w.len() == outs * ins,
        x.len() == ins * inner,
        delta.len() == outs * inner,
        0 <= a < outs,
        0 <= b < ins,
    ensures
        linear_loss(
            delta,
            forward(w.update(a * ins + b, T::spec_add(w[a * ins + b], h)), x, outs, ins, inner),
            outs,
            inner,
        ) == T::spec_add(
            linear_loss(delta, forward(w, x, outs, ins, inner), outs, inner),
            T::spec_mul(h, weight_gradient(delta, x, outs, ins, inner)[a * ins + b]),
        ),
{
    let ab = a * ins + b;
    let w2 = w.update(ab, T::spec_add(w[ab], h));
    let y = forward(w, x, outs, ins, inner);
    let y2 = forward(w2, x, outs, ins, inner);
    lemma_flat(a, b, outs as int, ins as int);
    // The gradient entry as a sum over the trailing positions.
    let gf = |c: int| T::spec_mul(delta[a * inner + c], x[b * inner + c]);
    lemma_entry_sum(delta, inner, 1, x, 1, inner, a, b, inner);
    lemma_sum_ext(
        |t: int| T::spec_mul(delta[a * inner + t * 1], x[t * 1 + b * inner]),
        gf,
        inner,
    );
    let ge = weight_gradient(delta, x, outs, ins, inner)[ab];
    assert(ge == sum_of(gf, inner));
    // Each output entry of row `a` grows by `h * x[b, c]`; other rows stay.
    assert forall|i: int, c: int| 0 <= i < outs && 0 <= c < inner implies #[trigger] y2[i * inner + c] == (if i
        == a {
        T::spec_add(y[i * inner + c], T::spec_mul(h, x[b * inner + c]))
    } else {
        y[i * inner + c]
    }) by {
        lemma_forward_entry(w, x, outs, ins, inner, i, c);
        lemma_forward_entry(w2, x, outs, ins, inner, i, c);
        let f = |t: int| T::spec_mul(w[i * ins + t * 1], x[t * inner + c * 1]);
        let g = |t: int| T::spec_mul(w2[i * ins + t * 1], x[t * inner + c * 1]);
        if i == a {
            assert forall|t: int| 0 <= t < ins && t != b implies #[trigger] g(t) == f(t) by {
                lemma_flat(i, t, outs as int, ins as int);
            }
            lemma_distrib_right(w[ab], h, x[b * inner + c]);
            lemma_sum_single(f, g, b, T::spec_mul(h, x[b * inner + c]), ins);
        } else {
            assert forall|t: int| 0 <= t < ins implies #[trigger] g(t) == f(t) by {
                lemma_flat(i, t, outs as int, ins as int);
            }
            lemma_sum_ext(f, g, ins);
        }
    }
    // Row `a` of the loss grows by `h` times the gradient entry.
    let rf = |c: int| T::spec_mul(delta[a * inner + c], y[a * inner + c]);
    let rg = |c: int| T::spec_mul(delta[a * inner + c], y2[a * inner + c]);
    let rd = |c: int| T::spec_mul(delta[a * inner + c], T::spec_mul(h, x[b * inner + c]));
    let hd = |c: int| T::spec_mul(h, gf(c));
    assert forall|c: int| 0 <= c < inner implies #[trigger] rg(c) == T::spec_add(rf(c), rd(c)) by {
        assert(y2[a * inner + c] == T::spec_add(y[a * inner + c], T::spec_mul(h, x[b * inner + c])));
        T::lemma_distrib(delta[a * inner + c], y[a * inner + c], T::spec_mul(h, x[b * inner + c]));
    }
    assert forall|c: int| 0 <= c < inner implies #[trigger] rd(c) == hd(c) by {
        T::lemma_mul_assoc(delta[a * inner + c], h, x[b * inner + c]);
        T::lemma_mul_comm(delta[a * inner + c], h);
        T::lemma_mul_assoc(h, delta[a * inner + c], x[b * inner + c]);
    }
    lemma_sum_ext(rg, |c: int| T::spec_add(rf(c), rd(c)), inner);
    lemma_sum_add(rf, rd, inner);
    lemma_sum_ext(rd, hd, inner);
    lemma_sum_scale(h, gf, inner);
    assert(row_loss(delta, y2, inner, a) == T::spec_add(row_loss(delta, y, inner, a), T::spec_mul(h, ge)));
    // The other rows of the loss stay.
    let lf = |i: int| row_loss(delta, y, inner, i);
    let lg = |i: int| row_loss(delta, y2, inner, i);
    assert forall|i: int| 0 <= i < outs && i != a implies #[trigger] lg(i) == lf(i) by {
        assert forall|c: int| 0 <= c < inner implies #[trigger] T::spec_mul(delta[i * inner + c], y2[i * inner + c])
            == T::spec_mul(delta[i * inner + c], y[i * inner + c]) by {
            assert(y2[i * inner + c] == y[i * inner + c]);
        }
        lemma_sum_ext(
            |c: int| T::spec_mul(delta[i * inner + c], y2[i * inner + c]),
            |c: int| T::spec_mul(delta[i * inner + c], y[i * inner + c]),
            inner,
        );
    }
    lemma_sum_single(lf, lg, a, T::spec_mul(h, ge), outs);
}

/// Central differences of the dense layer's linear loss: with the weight at
/// row `a`, column `b` raised by `h` on one side and lowered by `h` on the
/// other, the loss `sum delta * (w x)` differs between the two sides by
/// exactly `h + h` times entry `(a, b)` of the weight gradient that the
/// backward pass computes from `delta` and `x`.
pub proof fn lemma_dense_gradient_central_difference<T: Scalar>(
    w: Seq<T>,
    x: Seq<T>,
    delta: Seq<T>,
    outs: nat,
    ins: nat,
    inner: nat,
    a: int,
    b: int,
    h: T,
)
    requires
        w.len() == outs * ins,
        x.len() == ins * inner,
        delta.len() == outs * inner,
        0 <= a < outs,
        0 <= b < ins,
    ensures
        linear_loss(
            delta,
            forward(w.update(a * ins + b, T::spec_add(w[a * ins + b], h)), x, outs, ins, inner),
            outs,
            inner,
        ) == T::spec_add(
            linear_loss(
                delta,
                forward(w.update(a * ins + b, T::spec_sub(w[a * ins + b], h)), x, outs, ins, inner),
                outs,
                inner,
            ),
            T::spec_mul(T::spec_add(h, h), weight_gradient(delta, x, outs, ins, inner)[a * ins + b]),
        ),
{
    let ab = a * ins + b;
    lemma_flat(a, b, outs as int, ins as int);
    let g = weight_gradient(delta, x, outs, ins, inner)[ab];
    let low = w.update(ab, T::spec_sub(w[ab], h));
    lemma_dense_gradient_finite_difference(w, x, delta, outs, ins, inner, a, b, h);
    lemma_dense_gradient_finite_difference(low, x, delta, outs, ins, inner, a, b, h);
    T::lemma_sub_inverse(w[ab], h);
    assert(low.update(ab, T::spec_add(low[ab], h)) =~= w);
    let l_low = linear_loss(delta, forward(low, x, outs, ins, inner), outs, inner);
    let hg = T::spec_mul(h, g);
    T::lemma_add_assoc(l_low, hg, hg);
    lemma_distrib_right(h, h, g);
}

} // verus!
