use neural_layers::error::LayerError;
use neural_layers::layer::bias::BiasLayer;
use neural_layers::layer::dense::DenseLayer;
use neural_layers::layer::node::NodeLayer;
use neural_layers::layer::normalization::NormalizationLayer;
use neural_layers::layer::softmax::SoftmaxLayer;
use neural_layers::layer::{
    Backprop, BackpropAssign, GradientDecent, GradientDescentAdam, GradientDescentMomentum, Inference,
    InferenceAssign,
};
use neural_layers::param::izhikevich::Izhikevich;
use neural_layers::scalar::{pow, Scalar};
use neural_layers::tensor::{checked_size, Tensor};

/// Double-precision floats as tensor elements.
#[derive(Clone, Copy, Debug, PartialEq)]
struct F(f64);

/// Outside verification the trait's spec and proof items are ordinary
/// functions; here they mirror the operations.
impl Scalar for F {
    fn spec_zero() -> F {
        F(0.0)
    }
    fn spec_one() -> F {
        F(1.0)
    }
    fn spec_add(a: F, b: F) -> F {
        a.add(b)
    }
    fn spec_sub(a: F, b: F) -> F {
        a.sub(b)
    }
    fn spec_mul(a: F, b: F) -> F {
        a.mul(b)
    }
    fn spec_div(a: F, b: F) -> F {
        a.div(b)
    }
    fn spec_sqrt(a: F) -> F {
        a.sqrt()
    }
    fn spec_lt(a: F, b: F) -> bool {
        a.lt(b)
    }
    fn lemma_add_zero(_a: F) {}
    fn lemma_add_comm(_a: F, _b: F) {}
    fn lemma_add_assoc(_a: F, _b: F, _c: F) {}
    fn lemma_sub_inverse(_a: F, _b: F) {}
    fn lemma_mul_comm(_a: F, _b: F) {}
    fn lemma_mul_assoc(_a: F, _b: F, _c: F) {}
    fn lemma_mul_one(_a: F) {}
    fn lemma_distrib(_a: F, _b: F, _c: F) {}
    fn lemma_mul_zero(_a: F) {}
    fn lemma_zero_div(_a: F) {}
    fn zero() -> F {
        F(0.0)
    }
    fn one() -> F {
        F(1.0)
    }
    fn add(self, rhs: F) -> F {
        F(self.0 + rhs.0)
    }
    fn sub(self, rhs: F) -> F {
        F(self.0 - rhs.0)
    }
    fn mul(self, rhs: F) -> F {
        F(self.0 * rhs.0)
    }
    fn div(self, rhs: F) -> F {
        F(self.0 / rhs.0)
    }
    fn sqrt(self) -> F {
        F(self.0.sqrt())
    }
    fn lt(self, rhs: F) -> bool {
        self.0 < rhs.0
    }
}

fn fs(v: &[f64]) -> Vec<F> {
    v.iter().map(|&x| F(x)).collect()
}

fn close(a: &[F], b: &[f64]) -> bool {
    a.len() == b.len() && a.iter().zip(b.iter()).all(|(x, y)| (x.0 - y).abs() < 1e-6)
}

#[test]
fn test_inference() {
    let input = NodeLayer::new([1, 5, 1, 1, 1], fs(&[1.0; 5])).unwrap();
    let mut output = NodeLayer::new([1, 5, 1, 1, 1], fs(&[1.0; 5])).unwrap();
    let mut bias = BiasLayer::new([1, 5, 1, 1], fs(&[1.0; 5])).unwrap();
    let mut input_delta = Tensor::<F, 5>::new([1, 5, 1, 1, 1], fs(&[0.0; 5])).unwrap();
    let output_delta = Tensor::<F, 5>::new([1, 5, 1, 1, 1], fs(&[0.1; 5])).unwrap();
    let mut grad = Tensor::<F, 4>::new([1, 5, 1, 1], fs(&[0.0; 5])).unwrap();

    bias.inference(&input, &mut output).unwrap();
    println!("Before:");
    println!("{:?}", input.iter());
    println!("{:?}", output.iter());
    assert!(close(output.iter(), &[2.0; 5]));

    bias.backprop(&output, &input, &output_delta, &mut input_delta, &mut grad).unwrap();
    bias.grad_descent(F(0.1), &grad).unwrap();
    bias.inference(&input, &mut output).unwrap();
    println!("After:");
    println!("{:?}", input.iter());
    println!("{:?}", output.iter());
    assert!(close(input.iter(), &[1.0; 5]));
    assert!(close(output.iter(), &[2.01; 5]));
}

#[test]
fn inference_test() {
    let input = NodeLayer::new([4, 1, 1, 1, 1], fs(&[1.0, 1.0, 1.0, 1.0])).unwrap();
    let mut output = NodeLayer::new([4, 1, 1, 1, 1], fs(&[0.0, 0.0, 0.0, 0.0])).unwrap();
    let mut dense = DenseLayer::new([4, 4], fs(&[2.0; 16])).unwrap();
    let mut input_delta = Tensor::<F, 5>::new([4, 1, 1, 1, 1], fs(&[0.1; 4])).unwrap();
    let output_delta = Tensor::<F, 5>::new([4, 1, 1, 1, 1], fs(&[0.1; 4])).unwrap();
    let mut grad = Tensor::<F, 2>::new([4, 4], fs(&[0.1; 4 * 4])).unwrap();

    println!("Before:");
    println!("{:?}", input.iter());
    println!("{:?}", output.iter());
    dense.inference(&input, &mut output).unwrap();
    println!("After:");
    println!("{:?}", input.iter());
    println!("{:?}", output.iter());
    assert!(close(output.iter(), &[8.0; 4]));

    dense.backprop(&output, &input, &output_delta, &mut input_delta, &mut grad).unwrap();
    // Each weight gradient is 0.1 * 8, and each input delta 4 * 2 * 0.1.
    assert!(close(grad.iter(), &[0.8; 16]));
    assert!(close(input_delta.iter(), &[0.8; 4]));
    dense.grad_descent(F(0.1), &grad).unwrap();
    assert!(close(dense.iter(), &[2.08; 16]));

    println!("Before:");
    println!("{:?}", input.iter());
    println!("{:?}", output.iter());
    dense.inference(&input, &mut output).unwrap();
    println!("After:");
    println!("{:?}", input.iter());
    println!("{:?}", output.iter());
    assert!(close(output.iter(), &[8.32; 4]));
}

#[test]
fn test_izhikevich() {
    let step = F(0.1);
    let a = F(0.02);
    let b = F(0.2);
    let c = F(-65.0);
    let d = F(8.0);
    let e = F(0.04);
    let f = F(5.0);
    let g = F(140.0);
    let vt = F(30.0);
    let i = F(14.0);
    let mut izh = Izhikevich::new(c, F(b.0 * c.0));
    let mut spikes = 0;
    for _ in 0..1000 {
        let before = izh.v();
        izh.update(step, a, b, c, d, e, f, g, vt, i);
        if !(before.0 < vt.0) {
            spikes += 1;
            assert_eq!(izh.v(), c);
        }
        println!("{}", izh.v().0);
        assert!(izh.v().0.is_finite());
    }
    assert!(spikes > 0);
}

#[test]
fn bias_round_trip_scenario() {
    let input = NodeLayer::new([1, 5, 1, 1, 1], fs(&[1.0; 5])).unwrap();
    let mut output = NodeLayer::<F>::zeros([1, 5, 1, 1, 1]).unwrap();
    let mut bias = BiasLayer::new([1, 5, 1, 1], fs(&[1.0; 5])).unwrap();
    bias.inference(&input, &mut output).unwrap();
    assert_eq!(output.iter(), &fs(&[2.0; 5])[..]);

    let output_delta = Tensor::<F, 5>::new([1, 5, 1, 1, 1], fs(&[0.1; 5])).unwrap();
    let mut input_delta = Tensor::<F, 5>::zeros([1, 5, 1, 1, 1]).unwrap();
    let mut grad = Tensor::<F, 4>::zeros([1, 5, 1, 1]).unwrap();
    bias.backprop(&input, &output, &output_delta, &mut input_delta, &mut grad).unwrap();
    assert!(close(grad.iter(), &[0.1; 5]));
    assert!(close(input_delta.iter(), &[0.1; 5]));

    bias.grad_descent(F(0.1), &grad).unwrap();
    assert!(close(bias.iter(), &[1.01; 5]));
    bias.inference(&input, &mut output).unwrap();
    assert!(close(output.iter(), &[2.01; 5]));
}

#[test]
fn bias_integer_elements() {
    let bias = BiasLayer::new([1, 2, 1, 2], vec![1i64, -2, 3, i64::MAX]).unwrap();
    let input = NodeLayer::new([4, 1, 1, 1, 1], vec![10i64, 20, 30, 1]).unwrap();
    let mut output = NodeLayer::<i64>::zeros([4, 1, 1, 1, 1]).unwrap();
    bias.inference(&input, &mut output).unwrap();
    assert_eq!(output.iter(), &[11, 18, 33, i64::MIN]);

    let mut inplace = NodeLayer::new([2, 2, 1, 1, 1], vec![0i64, 0, 0, 0]).unwrap();
    bias.inference_assign(&mut inplace).unwrap();
    assert_eq!(inplace.iter(), &[1, -2, 3, i64::MAX]);
}

#[test]
fn bias_backprop_accumulates() {
    let bias = BiasLayer::new([1, 3, 1, 1], vec![0i64; 3]).unwrap();
    let input = NodeLayer::<i64>::zeros([3, 1, 1, 1, 1]).unwrap();
    let output = NodeLayer::<i64>::zeros([3, 1, 1, 1, 1]).unwrap();
    let output_delta = Tensor::new([3, 1, 1, 1, 1], vec![1i64, 2, 3]).unwrap();
    let mut input_delta = Tensor::<i64, 5>::zeros([3, 1, 1, 1, 1]).unwrap();
    let mut grad = Tensor::new([1, 3, 1, 1], vec![10i64, 10, 10]).unwrap();
    bias.backprop(&input, &output, &output_delta, &mut input_delta, &mut grad).unwrap();
    assert_eq!(grad.iter(), &[11, 12, 13]);
    assert_eq!(input_delta.iter(), &[1, 2, 3]);

    let mut delta = Tensor::new([3, 1, 1, 1, 1], vec![5i64, 5, 5]).unwrap();
    bias.backprop_assign(&output, &mut delta, &mut grad).unwrap();
    assert_eq!(grad.iter(), &[16, 17, 18]);
    assert_eq!(delta.iter(), &[5, 5, 5]);
}

#[test]
fn bias_shape_mismatch_rejected() {
    let bias = BiasLayer::new([1, 4, 1, 1], fs(&[1.0; 4])).unwrap();
    let input = NodeLayer::new([1, 5, 1, 1, 1], fs(&[1.0; 5])).unwrap();
    let mut output = NodeLayer::new([1, 5, 1, 1, 1], fs(&[7.0; 5])).unwrap();
    assert_eq!(bias.inference(&input, &mut output), Err(LayerError::ShapeMismatch));
    assert_eq!(output.iter(), &fs(&[7.0; 5])[..]);

    let mut inplace = NodeLayer::new([1, 5, 1, 1, 1], fs(&[1.0; 5])).unwrap();
    assert_eq!(bias.inference_assign(&mut inplace), Err(LayerError::ShapeMismatch));
    assert_eq!(inplace.iter(), &fs(&[1.0; 5])[..]);

    let output_delta = Tensor::<F, 5>::zeros([1, 4, 1, 1, 1]).unwrap();
    let mut input_delta = Tensor::<F, 5>::zeros([1, 4, 1, 1, 1]).unwrap();
    let mut grad = Tensor::<F, 4>::zeros([4, 1, 1, 1]).unwrap();
    assert_eq!(
        bias.backprop(&input, &output, &output_delta, &mut input_delta, &mut grad),
        Err(LayerError::ShapeMismatch)
    );
}

#[test]
fn dense_contraction_scenario() {
    let dense = DenseLayer::new([4, 4], vec![2i64; 16]).unwrap();
    let input = NodeLayer::new([4, 1, 1, 1, 1], vec![1i64; 4]).unwrap();
    let mut output = NodeLayer::<i64>::zeros([4, 1, 1, 1, 1]).unwrap();
    dense.inference(&input, &mut output).unwrap();
    assert_eq!(output.iter(), &[8, 8, 8, 8]);
}

#[test]
fn dense_rectangular_with_trailing_axes() {
    // Two outputs, three inputs, and two positions on the trailing axes.
    let dense = DenseLayer::new([2, 3], vec![1i64, 2, 3, 4, 5, 6]).unwrap();
    let input = NodeLayer::new([3, 1, 2, 1, 1], vec![1i64, 10, 2, 20, 3, 30]).unwrap();
    let mut output = NodeLayer::<i64>::zeros([2, 1, 2, 1, 1]).unwrap();
    dense.inference(&input, &mut output).unwrap();
    assert_eq!(output.iter(), &[14, 140, 32, 320]);

    let output_delta = Tensor::new([2, 1, 2, 1, 1], vec![1i64, 2, 3, 4]).unwrap();
    let mut input_delta = Tensor::<i64, 5>::zeros([3, 1, 2, 1, 1]).unwrap();
    let mut grad = Tensor::<i64, 2>::zeros([2, 3]).unwrap();
    dense.backprop(&input, &output, &output_delta, &mut input_delta, &mut grad).unwrap();
    // grad[i][j] = sum_r delta[i, r] * x[j, r]
    assert_eq!(grad.iter(), &[21, 42, 63, 43, 86, 129]);
    // input_delta[j, r] = sum_i w[i][j] * delta[i, r]
    assert_eq!(input_delta.iter(), &[13, 18, 17, 24, 21, 30]);
}

#[test]
fn dense_shape_mismatch_rejected() {
    let dense = DenseLayer::new([2, 3], vec![0i64; 6]).unwrap();
    let input = NodeLayer::<i64>::zeros([2, 1, 1, 1, 1]).unwrap();
    let mut output = NodeLayer::new([2, 1, 1, 1, 1], vec![5i64, 5]).unwrap();
    assert_eq!(dense.inference(&input, &mut output), Err(LayerError::ShapeMismatch));
    assert_eq!(output.iter(), &[5, 5]);

    let input = NodeLayer::<i64>::zeros([3, 2, 1, 1, 1]).unwrap();
    let mut output = NodeLayer::<i64>::zeros([2, 1, 2, 1, 1]).unwrap();
    assert_eq!(dense.inference(&input, &mut output), Err(LayerError::ShapeMismatch));

    let output_delta = Tensor::<i64, 5>::zeros([2, 2, 1, 1, 1]).unwrap();
    let mut input_delta = Tensor::<i64, 5>::zeros([3, 2, 1, 1, 1]).unwrap();
    let mut grad = Tensor::<i64, 2>::zeros([3, 2]).unwrap();
    assert_eq!(
        dense.backprop(&input, &output, &output_delta, &mut input_delta, &mut grad),
        Err(LayerError::ShapeMismatch)
    );
}

#[test]
fn dense_gradient_matches_finite_difference() {
    let w = [0.5, -1.0, 2.0, 0.25, 1.5, -0.75];
    let x = [1.0, -2.0, 0.5, 3.0, -1.5, 0.25];
    let delta = [0.3, -0.7, 1.1, 0.2];
    let input = NodeLayer::new([3, 2, 1, 1, 1], fs(&x)).unwrap();
    let loss = |weights: &[f64]| {
        let dense = DenseLayer::new([2, 3], fs(weights)).unwrap();
        let mut out = NodeLayer::<F>::zeros([2, 2, 1, 1, 1]).unwrap();
        dense.inference(&input, &mut out).unwrap();
        out.iter().iter().zip(delta.iter()).map(|(o, d)| o.0 * d).sum::<f64>()
    };
    let dense = DenseLayer::new([2, 3], fs(&w)).unwrap();
    let output = NodeLayer::<F>::zeros([2, 2, 1, 1, 1]).unwrap();
    let output_delta = Tensor::new([2, 2, 1, 1, 1], fs(&delta)).unwrap();
    let mut input_delta = Tensor::<F, 5>::zeros([3, 2, 1, 1, 1]).unwrap();
    let mut grad = Tensor::<F, 2>::zeros([2, 3]).unwrap();
    dense.backprop(&input, &output, &output_delta, &mut input_delta, &mut grad).unwrap();
    let h = 1e-4;
    for k in 0..6 {
        let mut up = w;
        up[k] += h;
        let mut down = w;
        down[k] -= h;
        let fd = (loss(&up) - loss(&down)) / (2.0 * h);
        assert!((fd - grad.iter()[k].0).abs() < 1e-6);
    }
}

#[test]
fn zero_gradient_leaves_parameters() {
    let mut p = Tensor::new([2, 2], fs(&[1.0, -2.0, 3.5, 0.25])).unwrap();
    let zero = Tensor::<F, 2>::zeros([2, 2]).unwrap();
    p.grad_descent(F(0.5), &zero).unwrap();
    assert_eq!(p.iter(), &fs(&[1.0, -2.0, 3.5, 0.25])[..]);

    let mut m = Tensor::<F, 2>::zeros([2, 2]).unwrap();
    p.grad_descent_momentum(F(0.5), &zero, &mut m).unwrap();
    assert_eq!(p.iter(), &fs(&[1.0, -2.0, 3.5, 0.25])[..]);

    let mut v = Tensor::new([2, 2], fs(&[0.5, 0.5, 0.5, 0.5])).unwrap();
    p.grad_descent_adam(F(0.1), 3, F(0.9), F(0.999), F(1e-8), &zero, &mut m, &mut v).unwrap();
    assert_eq!(p.iter(), &fs(&[1.0, -2.0, 3.5, 0.25])[..]);
    assert_eq!(m.iter(), &fs(&[0.0; 4])[..]);
    assert!(close(v.iter(), &[0.4995; 4]));
}

#[test]
fn momentum_overwrites_running_value() {
    let mut p = Tensor::new([2], vec![10i64, 20]).unwrap();
    let g = Tensor::new([2], vec![1i64, -1]).unwrap();
    let mut m = Tensor::new([2], vec![3i64, 3]).unwrap();
    p.grad_descent_momentum(2, &g, &mut m).unwrap();
    // p += step * (m + g); then m = g
    assert_eq!(p.iter(), &[18, 24]);
    assert_eq!(m.iter(), &[1, -1]);
    p.grad_descent_momentum(2, &g, &mut m).unwrap();
    assert_eq!(p.iter(), &[22, 20]);
}

#[test]
fn adam_bias_correction_converges() {
    let g = 0.3;
    let (beta_m, beta_v) = (0.9, 0.999);
    let mut p = Tensor::new([1], fs(&[0.0])).unwrap();
    let grad = Tensor::new([1], fs(&[g])).unwrap();
    let mut m = Tensor::<F, 1>::zeros([1]).unwrap();
    let mut v = Tensor::<F, 1>::zeros([1]).unwrap();
    let mut last_gap = f64::INFINITY;
    for t in 1..=200u32 {
        p.grad_descent_adam(F(0.01), t, F(beta_m), F(beta_v), F(1e-8), &grad, &mut m, &mut v).unwrap();
        let m_hat = m.iter()[0].0 / (1.0 - beta_m.powi(t as i32));
        let v_hat = v.iter()[0].0 / (1.0 - beta_v.powi(t as i32));
        assert!((m_hat - g).abs() < 1e-9);
        assert!((v_hat - g * g).abs() < 1e-9);
        let gap = (m.iter()[0].0 - g).abs();
        assert!(gap <= last_gap);
        last_gap = gap;
    }
    assert!(last_gap < 1e-6);
}

#[test]
fn adam_moments_equal_bias_correction_times_gradient() {
    // With beta = 2 and a constant gradient 3 the first moment after t steps
    // is exactly (1 - 2^t) * 3; with beta = -1 the second one is (1 - (-1)^t) * 9.
    let mut p = Tensor::new([1], vec![0i64]).unwrap();
    let g = Tensor::new([1], vec![3i64]).unwrap();
    let mut m = Tensor::<i64, 1>::zeros([1]).unwrap();
    let mut v = Tensor::<i64, 1>::zeros([1]).unwrap();
    for t in 1..=10u32 {
        p.grad_descent_adam(0, t, 2, -1, 1, &g, &mut m, &mut v).unwrap();
        assert_eq!(m.iter(), &[(1 - 2i64.pow(t)) * 3]);
        assert_eq!(v.iter(), &[(1 - (-1i64).pow(t)) * 9]);
    }
}

#[test]
fn adam_moments_from_a_nonzero_start() {
    // From m0 = 5 and v0 = 7 with beta_m = 2, beta_v = -1 and gradient 3:
    // m_t = 2^t * 5 + (1 - 2^t) * 3 and v_t = (-1)^t * 7 + (1 - (-1)^t) * 9.
    let mut p = Tensor::new([1], vec![0i64]).unwrap();
    let g = Tensor::new([1], vec![3i64]).unwrap();
    let mut m = Tensor::new([1], vec![5i64]).unwrap();
    let mut v = Tensor::new([1], vec![7i64]).unwrap();
    for t in 1..=10u32 {
        assert_eq!(p.grad_descent_adam(0, t, 2, -1, 1, &g, &mut m, &mut v), Ok(()));
        let bm = 2i64.pow(t);
        let bv = (-1i64).pow(t);
        assert_eq!(m.iter(), &[bm * 5 + (1 - bm) * 3]);
        assert_eq!(v.iter(), &[bv * 7 + (1 - bv) * 9]);
    }
}

#[test]
fn adam_integer_step() {
    // With integer elements: m = 0*0 + (1-0)*4 = 4, v = 0 + 1*16 = 16,
    // corrections 1 - 0^1 = 1, p += 1 * (4 / (sqrt(16) + 0)) = 1.
    let mut p = Tensor::new([1], vec![5i64]).unwrap();
    let g = Tensor::new([1], vec![4i64]).unwrap();
    let mut m = Tensor::<i64, 1>::zeros([1]).unwrap();
    let mut v = Tensor::<i64, 1>::zeros([1]).unwrap();
    p.grad_descent_adam(1, 1, 0, 0, 0, &g, &mut m, &mut v).unwrap();
    assert_eq!(m.iter(), &[4]);
    assert_eq!(v.iter(), &[16]);
    assert_eq!(p.iter(), &[6]);
}

#[test]
fn adam_time_zero_rejected() {
    let mut p = Tensor::new([2], fs(&[1.0, 2.0])).unwrap();
    let g = Tensor::new([2], fs(&[1.0, 1.0])).unwrap();
    let mut m = Tensor::<F, 1>::zeros([2]).unwrap();
    let mut v = Tensor::<F, 1>::zeros([2]).unwrap();
    let r = p.grad_descent_adam(F(0.1), 0, F(0.9), F(0.999), F(1e-8), &g, &mut m, &mut v);
    assert_eq!(r, Err(LayerError::InvalidArgument));
    assert_eq!(p.iter(), &fs(&[1.0, 2.0])[..]);

    let mut short = Tensor::<F, 1>::zeros([1]).unwrap();
    let r = p.grad_descent_adam(F(0.1), 1, F(0.9), F(0.999), F(1e-8), &g, &mut short, &mut v);
    assert_eq!(r, Err(LayerError::ShapeMismatch));
}

#[test]
fn update_rules_reject_other_layouts() {
    let mut bias = BiasLayer::new([1, 2, 1, 1], vec![1i64, 1]).unwrap();
    let g = Tensor::new([2, 1, 1, 1], vec![1i64, 1]).unwrap();
    assert_eq!(bias.grad_descent(1, &g), Err(LayerError::ShapeMismatch));
    let mut m = Tensor::new([1, 2, 1, 1], vec![0i64, 0]).unwrap();
    assert_eq!(bias.grad_descent_momentum(1, &g, &mut m), Err(LayerError::ShapeMismatch));
    assert_eq!(bias.iter(), &[1, 1]);

    let mut dense = DenseLayer::new([1, 2], vec![1i64, 1]).unwrap();
    let g = Tensor::new([1, 2], vec![2i64, 3]).unwrap();
    dense.grad_descent(1, &g).unwrap();
    assert_eq!(dense.iter(), &[3, 4]);
}

#[test]
fn stub_layers_report_not_implemented() {
    let softmax = SoftmaxLayer::new();
    let input = NodeLayer::new([1, 1, 1, 1, 1], vec![1i64]).unwrap();
    let mut output = NodeLayer::new([1, 1, 1, 1, 1], vec![9i64]).unwrap();
    assert_eq!(softmax.inference(&input, &mut output), Err(LayerError::NotImplemented));
    assert_eq!(output.iter(), &[9]);
    let mut softmax = softmax;
    let g = Tensor::<i64, 0>::new([], vec![0]).unwrap();
    assert_eq!(softmax.grad_descent(1, &g), Err(LayerError::NotImplemented));

    let mut norm = NormalizationLayer::new([1, 1, 1, 1], vec![2i64]).unwrap();
    assert_eq!(norm.inference(&input, &mut output), Err(LayerError::NotImplemented));
    let g = Tensor::new([1, 1, 1, 1], vec![3i64]).unwrap();
    norm.grad_descent(2, &g).unwrap();
    assert_eq!(norm.iter(), &[8]);
}

#[test]
fn tensor_construction() {
    assert_eq!(Tensor::new([2, 3], vec![0i64; 5]).err(), Some(LayerError::ShapeMismatch));
    let t = Tensor::new([2, 0, 7], Vec::<i64>::new()).unwrap();
    assert_eq!(t.len(), 0);
    assert_eq!(t.shape(), [2, 0, 7]);
    assert_eq!(checked_size(&[usize::MAX, 2]), None);
    assert_eq!(checked_size(&[usize::MAX, 2, 0]), Some(0));
    assert_eq!(checked_size(&[3, 4, 5]), Some(60));
    assert_eq!(Tensor::<i64, 2>::zeros([usize::MAX, 2]).err(), Some(LayerError::InvalidArgument));
    assert_eq!(NodeLayer::new([1, 1, 1, 1, 2], vec![1i64]).err(), Some(LayerError::ShapeMismatch));

    let mut node = NodeLayer::new([1, 1, 1, 1, 2], vec![1i64, 2]).unwrap();
    node.iter_mut()[1] = 5;
    assert_eq!(node.iter(), &[1, 5]);
    assert_eq!(node.tensor().shape(), [1, 1, 1, 1, 2]);
}

#[test]
fn integer_scalar_arithmetic() {
    assert_eq!(Scalar::sqrt(17i64), 4);
    assert_eq!(Scalar::sqrt(16i64), 4);
    assert_eq!(Scalar::sqrt(1i64 << 62), 1 << 31);
    assert_eq!(Scalar::sqrt(-9i64), 0);
    assert_eq!(Scalar::div(7i64, 0), 0);
    assert_eq!(Scalar::div(-7i64, 2), -3);
    assert_eq!(Scalar::div(i64::MIN, -1), 0);
    assert_eq!(Scalar::mul(i64::MAX, 2), -2);
    assert_eq!(pow(3i64, 4), 81);
    assert_eq!(pow(F(0.5), 3), F(0.125));
}

#[test]
fn izhikevich_integer_steps() {
    let mut n = Izhikevich::new_const(0i64, 0);
    // v += 1 * (0*0*0 + 1*0 + 5 - 0 + 1) = 6; u += 1 * (2 * (1*6 - 0)) = 12
    n.update(1, 2, 1, -7, 3, 0, 1, 5, 10, 1);
    assert_eq!((n.v(), n.u()), (6, 12));
    n.update(1, 2, 1, -7, 3, 0, 1, 5, 6, 1);
    assert_eq!((n.v(), n.u()), (-7, 15));
}
