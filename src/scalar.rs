//! The element type of tensors: a scalar with the arithmetic that the layers
//! and the update rules use.

use vstd::prelude::*;

verus! {

/// Arithmetic that the layers need from a tensor element.
///
/// Each operation is described by a spec function, which contracts of the
/// layers speak of. The proof functions are the algebraic facts that the
/// laws of the update rules and of the dense layer rest on: those of a
/// commutative ring, with zero dividing to zero. Every implementation in
/// this crate proves them; a type whose arithmetic rounds meets them only up
/// to rounding.
pub trait Scalar: Copy + Sized {
    spec fn spec_zero() -> Self;

    spec fn spec_one() -> Self;

    spec fn spec_add(a: Self, b: Self) -> Self;

    spec fn spec_sub(a: Self, b: Self) -> Self;

    spec fn spec_mul(a: Self, b: Self) -> Self;

    spec fn spec_div(a: Self, b: Self) -> Self;

    spec fn spec_sqrt(a: Self) -> Self;

    spec fn spec_lt(a: Self, b: Self) -> bool;

    /// Zero is a right identity of addition.
    proof fn lemma_add_zero(a: Self)
        ensures
            Self::spec_add(a, Self::spec_zero()) == a,
    ;

    /// Zero annihilates multiplication on either side.
    proof fn lemma_mul_zero(a: Self)
        ensures
            Self::spec_mul(a, Self::spec_zero()) == Self::spec_zero(),
            Self::spec_mul(Self::spec_zero(), a) == Self::spec_zero(),
    ;

    /// Addition is commutative.
    proof fn lemma_add_comm(a: Self, b: Self)
        ensures
            Self::spec_add(a, b) == Self::spec_add(b, a),
    ;

    /// Addition is associative.
    proof fn lemma_add_assoc(a: Self, b: Self, c: Self)
        ensures
            Self::spec_add(Self::spec_add(a, b), c) == Self::spec_add(a, Self::spec_add(b, c)),
    ;

    /// Subtraction undoes addition, and addition undoes subtraction.
    proof fn lemma_sub_inverse(a: Self, b: Self)
        ensures
            Self::spec_sub(Self::spec_add(a, b), b) == a,
            Self::spec_add(Self::spec_sub(a, b), b) == a,
    ;

    /// Multiplication is commutative.
    proof fn lemma_mul_comm(a: Self, b: Self)
        ensures
            Self::spec_mul(a, b) == Self::spec_mul(b, a),
    ;

    /// Multiplication is associative.
    proof fn lemma_mul_assoc(a: Self, b: Self, c: Self)
        ensures
            Self::spec_mul(Self::spec_mul(a, b), c) == Self::spec_mul(a, Self::spec_mul(b, c)),
    ;

    /// One is a right identity of multiplication.
    proof fn lemma_mul_one(a: Self)
        ensures
            Self::spec_mul(a, Self::spec_one()) == a,
    ;

    /// Multiplication distributes over addition.
    proof fn lemma_distrib(a: Self, b: Self, c: Self)
        ensures
            Self::spec_mul(a, Self::spec_add(b, c)) == Self::spec_add(Self::spec_mul(a, b), Self::spec_mul(a, c)),
    ;

    /// Zero divided by anything is zero.
    proof fn lemma_zero_div(a: Self)
        ensures
            Self::spec_div(Self::spec_zero(), a) == Self::spec_zero(),
    ;

    fn zero() -> (r: Self)
        ensures
            r == Self::spec_zero(),
    ;

    fn one() -> (r: Self)
        ensures
            r == Self::spec_one(),
    ;

    fn add(self, rhs: Self) -> (r: Self)
        ensures
            r == Self::spec_add(self, rhs),
    ;

    fn sub(self, rhs: Self) -> (r: Self)
        ensures
            r == Self::spec_sub(self, rhs),
    ;

    fn mul(self, rhs: Self) -> (r: Self)
        ensures
            r == Self::spec_mul(self, rhs),
    ;

    fn div(self, rhs: Self) -> (r: Self)
        ensures
            r == Self::spec_div(self, rhs),
    ;

    fn sqrt(self) -> (r: Self)
        ensures
            r == Self::spec_sqrt(self),
    ;

    fn lt(self, rhs: Self) -> (r: bool)
        ensures
            r == Self::spec_lt(self, rhs),
    ;
}

/// `base` multiplied by itself `n` times, starting from one.
pub open spec fn spec_pow<T: Scalar>(base: T, n: nat) -> T
    decreases n,
{
    if n == 0 {
        T::spec_one()
    } else {
        T::spec_mul(spec_pow(base, (n - 1) as nat), base)
    }
}

/// Computes `base` to the power `n` by repeated multiplication.
pub fn pow<T: Scalar>(base: T, n: u32) -> (r: T)
    ensures
        r == spec_pow(base, n as nat),
{
    let mut acc = T::one();
    let mut i: u32 = 0;
    while i < n
        invariant
            i <= n,
            acc == spec_pow(base, i as nat),
        decreases n - i,
    {
        acc = acc.mul(base);
        i = i + 1;
    }
    acc
}

/// `r` is the truncated square root of `x`.
pub open spec fn is_floor_sqrt(x: int, r: int) -> bool {
    0 <= r && r * r <= x && x < (r + 1) * (r + 1)
}

/// The truncated square root of a non-negative integer.
pub open spec fn floor_sqrt(x: int) -> int {
    choose|r: int| is_floor_sqrt(x, r)
}

proof fn lemma_floor_sqrt_unique(x: int, r1: int, r2: int)
    requires
        is_floor_sqrt(x, r1),
        is_floor_sqrt(x, r2),
    ensures
        r1 == r2,
{
    if r1 < r2 {
        assert((r1 + 1) * (r1 + 1) <= r2 * r2) by (nonlinear_arith)
            requires
                0 <= r1,
                r1 + 1 <= r2,
        ;
    } else if r2 < r1 {
        assert((r2 + 1) * (r2 + 1) <= r1 * r1) by (nonlinear_arith)
            requires
                0 <= r2,
                r2 + 1 <= r1,
        ;
    }
}

/// Relies on `num::integer::Roots::sqrt` for `i64`: for a non-negative
/// argument it returns the truncated square root `r`, with
/// `r * r <= x < (r + 1) * (r + 1)`; it panics on a negative one.
#[verifier::external_body]
fn i64_floor_sqrt(x: i64) -> (r: i64)
    requires
        x >= 0,
    ensures
        is_floor_sqrt(x as int, r as int),
{
    num::integer::Roots::sqrt(&x)
}

/// The two's-complement value of `x`: the `i64` congruent to it modulo 2^64.
pub open spec fn wrap(x: int) -> i64 {
    let r = x % 0x1_0000_0000_0000_0000;
    if r > i64::MAX {
        (r - 0x1_0000_0000_0000_0000) as i64
    } else {
        r as i64
    }
}

proof fn lemma_wrap_congruent(x: int)
    ensures
        (wrap(x) as int) % 0x1_0000_0000_0000_0000 == x % 0x1_0000_0000_0000_0000,
{
    let m: int = 0x1_0000_0000_0000_0000;
    let r = x % m;
    vstd::arithmetic::div_mod::lemma_mod_twice(x, m);
    if r > i64::MAX {
        vstd::arithmetic::div_mod::lemma_mod_sub_multiples_vanish(r, m);
    }
}

proof fn lemma_wrap_value(v: i64)
    ensures
        wrap(v as int) == v,
{
    let m: int = 0x1_0000_0000_0000_0000;
    if v >= 0 {
        vstd::arithmetic::div_mod::lemma_fundamental_div_mod_converse(v as int, m, 0, v as int);
    } else {
        vstd::arithmetic::div_mod::lemma_fundamental_div_mod_converse(v as int, m, -1, v + m);
    }
}

/// Congruent arguments wrap to the same value.
proof fn lemma_wrap_same(x: int, y: int)
    requires
        x % 0x1_0000_0000_0000_0000 == y % 0x1_0000_0000_0000_0000,
    ensures
        wrap(x) == wrap(y),
{
}

/// A value in range congruent to `x` is the wrap of `x`.
proof fn lemma_wrap_unique(v: i64, x: int)
    requires
        (v as int) % 0x1_0000_0000_0000_0000 == x % 0x1_0000_0000_0000_0000,
    ensures
        wrap(x) == v,
{
    lemma_wrap_value(v);
}

proof fn lemma_wrapping_ops(a: i64, b: i64)
    ensures
        a.wrapping_add(b) == wrap(a + b),
        a.wrapping_sub(b) == wrap(a - b),
        a.wrapping_mul(b) == wrap(a * b),
{
    let m: int = 0x1_0000_0000_0000_0000;
    let s = a + b;
    if s > i64::MAX {
        vstd::arithmetic::div_mod::lemma_mod_sub_multiples_vanish(s, m);
    } else if s < i64::MIN {
        vstd::arithmetic::div_mod::lemma_mod_add_multiples_vanish(s, m);
    }
    lemma_wrap_unique(a.wrapping_add(b), s);
    let d = a - b;
    if d > i64::MAX {
        vstd::arithmetic::div_mod::lemma_mod_sub_multiples_vanish(d, m);
    } else if d < i64::MIN {
        vstd::arithmetic::div_mod::lemma_mod_add_multiples_vanish(d, m);
    }
    lemma_wrap_unique(a.wrapping_sub(b), d);
}

/// Wrapping an operand first does not change the wrapped sum or product.
proof fn lemma_wrap_inner(x: int, y: int)
    ensures
        wrap(wrap(x) + y) == wrap(x + y),
        wrap(y + wrap(x)) == wrap(y + x),
        wrap(wrap(x) - y) == wrap(x - y),
        wrap(y - wrap(x)) == wrap(y - x),
        wrap(wrap(x) * y) == wrap(x * y),
        wrap(y * wrap(x)) == wrap(y * x),
{
    let m: int = 0x1_0000_0000_0000_0000;
    let w = wrap(x) as int;
    lemma_wrap_congruent(x);
    vstd::arithmetic::div_mod::lemma_add_mod_noop(w, y, m);
    vstd::arithmetic::div_mod::lemma_add_mod_noop(x, y, m);
    vstd::arithmetic::div_mod::lemma_add_mod_noop(y, w, m);
    vstd::arithmetic::div_mod::lemma_add_mod_noop(y, x, m);
    vstd::arithmetic::div_mod::lemma_sub_mod_noop(w, y, m);
    vstd::arithmetic::div_mod::lemma_sub_mod_noop(x, y, m);
    vstd::arithmetic::div_mod::lemma_sub_mod_noop(y, w, m);
    vstd::arithmetic::div_mod::lemma_sub_mod_noop(y, x, m);
    vstd::arithmetic::div_mod::lemma_mul_mod_noop_general(w, y, m);
    vstd::arithmetic::div_mod::lemma_mul_mod_noop_general(x, y, m);
    vstd::arithmetic::div_mod::lemma_mul_mod_noop_general(y, w, m);
    vstd::arithmetic::div_mod::lemma_mul_mod_noop_general(y, x, m);
    lemma_wrap_same(w + y, x + y);
    lemma_wrap_same(y + w, y + x);
    lemma_wrap_same(w - y, x - y);
    lemma_wrap_same(y - w, y - x);
    lemma_wrap_same(w * y, x * y);
    lemma_wrap_same(y * w, y * x);
}

/// Two's-complement integers: addition, subtraction and multiplication wrap
/// around; division truncates toward zero, and a quotient that does not
/// exist (a zero divisor, or `i64::MIN / -1`) is zero; the square root is
/// the truncated one, and zero for a negative argument.
impl Scalar for i64 {
    open spec fn spec_zero() -> i64 {
        0
    }

    open spec fn spec_one() -> i64 {
        1
    }

    open spec fn spec_add(a: i64, b: i64) -> i64 {
        a.wrapping_add(b)
    }

    open spec fn spec_sub(a: i64, b: i64) -> i64 {
        a.wrapping_sub(b)
    }

    open spec fn spec_mul(a: i64, b: i64) -> i64 {
        a.wrapping_mul(b)
    }

    open spec fn spec_div(a: i64, b: i64) -> i64 {
        match a.checked_div(b) {
            Some(q) => q,
            None => 0,
        }
    }

    open spec fn spec_sqrt(a: i64) -> i64 {
        if a < 0 {
            0
        } else {
            floor_sqrt(a as int) as i64
        }
    }

    open spec fn spec_lt(a: i64, b: i64) -> bool {
        a < b
    }

    proof fn lemma_add_zero(a: i64) {
    }

    proof fn lemma_add_comm(a: i64, b: i64) {
        lemma_wrapping_ops(a, b);
        lemma_wrapping_ops(b, a);
    }

    proof fn lemma_add_assoc(a: i64, b: i64, c: i64) {
        lemma_wrapping_ops(a, b);
        lemma_wrapping_ops(b, c);
        lemma_wrapping_ops(a.wrapping_add(b), c);
        lemma_wrapping_ops(a, b.wrapping_add(c));
        lemma_wrap_inner(a + b, c as int);
        lemma_wrap_inner(b + c, a as int);
        assert(a + b + c == a + (b + c));
    }

    proof fn lemma_sub_inverse(a: i64, b: i64) {
        lemma_wrapping_ops(a, b);
        lemma_wrapping_ops(a.wrapping_add(b), b);
        lemma_wrapping_ops(a.wrapping_sub(b), b);
        lemma_wrap_inner(a + b, b as int);
        lemma_wrap_inner(a - b, b as int);
        assert(a + b - b == a);
        assert(a - b + b == a);
        lemma_wrap_value(a);
    }

    proof fn lemma_mul_comm(a: i64, b: i64) {
        lemma_wrapping_ops(a, b);
        lemma_wrapping_ops(b, a);
        assert(a * b == b * a) by (nonlinear_arith);
    }

    proof fn lemma_mul_assoc(a: i64, b: i64, c: i64) {
        lemma_wrapping_ops(a, b);
        lemma_wrapping_ops(b, c);
        lemma_wrapping_ops(a.wrapping_mul(b), c);
        lemma_wrapping_ops(a, b.wrapping_mul(c));
        lemma_wrap_inner(a * b, c as int);
        lemma_wrap_inner(b * c, a as int);
        assert((a * b) * c == a * (b * c)) by (nonlinear_arith);
    }

    proof fn lemma_mul_one(a: i64) {
        lemma_wrapping_ops(a, 1);
        lemma_wrap_value(a);
    }

    proof fn lemma_distrib(a: i64, b: i64, c: i64) {
        lemma_wrapping_ops(b, c);
        lemma_wrapping_ops(a, b.wrapping_add(c));
        lemma_wrapping_ops(a, b);
        lemma_wrapping_ops(a, c);
        lemma_wrapping_ops(a.wrapping_mul(b), a.wrapping_mul(c));
        lemma_wrap_inner(b + c, a as int);
        lemma_wrap_inner(a * b, wrap(a * c) as int);
        lemma_wrap_inner(a * c, a * b);
        assert(a * (b + c) == a * b + a * c) by (nonlinear_arith);
    }

    proof fn lemma_mul_zero(a: i64) {
    }

    proof fn lemma_zero_div(a: i64) {
    }

    fn zero() -> (r: i64) {
        0
    }

    fn one() -> (r: i64) {
        1
    }

    fn add(self, rhs: i64) -> (r: i64) {
        self.wrapping_add(rhs)
    }

    fn sub(self, rhs: i64) -> (r: i64) {
        self.wrapping_sub(rhs)
    }

    fn mul(self, rhs: i64) -> (r: i64) {
        self.wrapping_mul(rhs)
    }

    fn div(self, rhs: i64) -> (r: i64) {
        match self.checked_div(rhs) {
            Some(q) => q,
            None => 0,
        }
    }

    fn sqrt(self) -> (r: i64) {
        if self < 0 {
            0
        } else {
            let r = i64_floor_sqrt(self);
            proof {
                lemma_floor_sqrt_unique(self as int, r as int, floor_sqrt(self as int));
            }
            r
        }
    }

    fn lt(self, rhs: i64) -> (r: bool) {
        self < rhs
    }
}

} // verus!
