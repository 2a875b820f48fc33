//! Fixed-rank tensors stored in row-major order.

use vstd::prelude::*;

use crate::error::LayerError;
use crate::scalar::Scalar;

verus! {

/// The number of elements of a tensor with the given extents.
pub open spec fn shape_size(s: Seq<usize>) -> nat
    decreases s.len(),
{
    if s.len() == 0 {
        1
    } else {
        s[0] as nat * shape_size(s.skip(1))
    }
}

proof fn lemma_shape_size_zero(s: Seq<usize>, k: int)
    requires
        0 <= k < s.len(),
        s[k] == 0,
    ensures
        shape_size(s) == 0,
    decreases s.len(),
{
    if k > 0 {
        lemma_shape_size_zero(s.skip(1), k - 1);
        assert(shape_size(s) == s[0] as nat * shape_size(s.skip(1)));
        assert(s[0] as nat * 0 == 0) by (nonlinear_arith);
    } else {
        assert(shape_size(s) == s[0] as nat * shape_size(s.skip(1)));
        assert(0 * shape_size(s.skip(1)) == 0) by (nonlinear_arith);
    }
}

/// With no zero extent, dropping leading axes never grows the element count.
proof fn lemma_shape_size_skip(s: Seq<usize>, k: int)
    requires
        0 <= k <= s.len(),
        forall|i: int| 0 <= i < s.len() ==> s[i] >= 1,
    ensures
        shape_size(s.skip(k)) <= shape_size(s),
    decreases k,
{
    assert(s.skip(0) =~= s);
    if k > 0 {
        lemma_shape_size_skip(s, k - 1);
        let t = s.skip(k - 1);
        assert(t.skip(1) =~= s.skip(k));
        assert(t[0] >= 1);
        assert(shape_size(t) == t[0] as nat * shape_size(s.skip(k)));
        assert(shape_size(s.skip(k)) <= t[0] as nat * shape_size(s.skip(k))) by (nonlinear_arith)
            requires
                t[0] >= 1,
        ;
    }
}

/// The product of the extents, or `None` where it does not fit in `usize`.
pub fn checked_size<const R: usize>(shape: &[usize; R]) -> (r: Option<usize>)
    ensures
        match r {
            Some(n) => n as nat == shape_size(shape@),
            None => shape_size(shape@) > usize::MAX,
        },
{
    let mut k: usize = 0;
    while k < R
        invariant
            k <= R,
            shape@.len() == R,
            forall|i: int| 0 <= i < k ==> shape@[i] >= 1,
        decreases R - k,
    {
        if shape[k] == 0 {
            proof {
                lemma_shape_size_zero(shape@, k as int);
            }
            return Some(0);
        }
        k = k + 1;
    }
    let mut acc: usize = 1;
    let mut i: usize = R;
    assert(shape@.skip(R as int) =~= Seq::<usize>::empty());
    while i > 0
        invariant
            i <= R,
            shape@.len() == R,
            forall|j: int| 0 <= j < R ==> shape@[j] >= 1,
            acc as nat == shape_size(shape@.skip(i as int)),
        decreases i,
    {
        let t = Ghost(shape@.skip(i - 1));
        assert(t@.skip(1) =~= shape@.skip(i as int));
        match shape[i - 1].checked_mul(acc) {
            Some(p) => {
                acc = p;
                i = i - 1;
            },
            None => {
                proof {
                    lemma_shape_size_skip(shape@, i - 1);
                    assert(shape@.skip(0) =~= shape@);
                }
                return None;
            },
        }
    }
    assert(shape@.skip(0) =~= shape@);
    Some(acc)
}

/// Entry `(i, c)` of the product of two strided matrices, summed over the
/// first `k` terms in ascending order: `A(i, t) = a[i * ai + t * ak]` and
/// `B(t, c) = b[t * bk + c * bc]`.
pub open spec fn product_entry<T: Scalar>(
    a: Seq<T>,
    ai: nat,
    ak: nat,
    b: Seq<T>,
    bk: nat,
    bc: nat,
    i: int,
    c: int,
    k: nat,
) -> T
    decreases k,
{
    if k == 0 {
        T::spec_zero()
    } else {
        let t = k - 1;
        T::spec_add(
            product_entry(a, ai, ak, b, bk, bc, i, c, t as nat),
            T::spec_mul(a[i * ai + t * ak], b[t * bk + c * bc]),
        )
    }
}

/// The `rows` by `cols` product of two strided matrices, contracted over
/// `depth` terms, in row-major order.
pub open spec fn product<T: Scalar>(
    a: Seq<T>,
    ai: nat,
    ak: nat,
    b: Seq<T>,
    bk: nat,
    bc: nat,
    rows: nat,
    depth: nat,
    cols: nat,
) -> Seq<T> {
    Seq::new(rows * cols, |p: int| product_entry(a, ai, ak, b, bk, bc, p / cols as int, p % cols as int, depth))
}

proof fn lemma_index_bound(i: int, n: int, si: int, k: int, m: int, sk: int)
    requires
        0 <= i < n,
        0 <= k < m,
        si >= 0,
        sk >= 0,
    ensures
        0 <= i * si,
        0 <= k * sk,
        i * si + k * sk <= (n - 1) * si + (m - 1) * sk,
{
    assert(0 <= i * si <= (n - 1) * si) by (nonlinear_arith)
        requires
            0 <= i <= n - 1,
            si >= 0,
    ;
    assert(0 <= k * sk <= (m - 1) * sk) by (nonlinear_arith)
        requires
            0 <= k <= m - 1,
            sk >= 0,
    ;
}

/// Writes into `out` the product of two strided matrices: the contraction
/// of `a` and `b` over one matched axis.
pub fn contract_into<T: Scalar>(
    a: &Vec<T>,
    ai: usize,
    ak: usize,
    b: &Vec<T>,
    bk: usize,
    bc: usize,
    rows: usize,
    depth: usize,
    cols: usize,
    out: &mut Vec<T>,
)
    requires
        old(out)@.len() == rows * cols,
        rows > 0 && depth > 0 ==> (rows - 1) * ai + (depth - 1) * ak < a@.len(),
        depth > 0 && cols > 0 ==> (depth - 1) * bk + (cols - 1) * bc < b@.len(),
    ensures
        final(out)@ == product(a@, ai as nat, ak as nat, b@, bk as nat, bc as nat, rows as nat, depth as nat, cols as nat),
{
    let ghost total = rows * cols;
    let alen = a.len();
    let blen = b.len();
    let olen = out.len();
    let mut i: usize = 0;
    while i < rows
        invariant
            i <= rows,
            alen == a@.len(),
            blen == b@.len(),
            olen == total,
            i * cols <= total,
            out@.len() == total,
            total == rows * cols,
            rows > 0 && depth > 0 ==> (rows - 1) * ai + (depth - 1) * ak < a@.len(),
            depth > 0 && cols > 0 ==> (depth - 1) * bk + (cols - 1) * bc < b@.len(),
            forall|p: int|
                0 <= p < i * cols ==> out@[p] == product_entry(
                    a@,
                    ai as nat,
                    ak as nat,
                    b@,
                    bk as nat,
                    bc as nat,
                    p / cols as int,
                    p % cols as int,
                    depth as nat,
                ),
        decreases rows - i,
    {
        let mut c: usize = 0;
        while c < cols
            invariant
                i < rows,
                c <= cols,
                alen == a@.len(),
                blen == b@.len(),
                olen == total,
                i * cols + c <= total,
                out@.len() == total,
                total == rows * cols,
                rows > 0 && depth > 0 ==> (rows - 1) * ai + (depth - 1) * ak < a@.len(),
                depth > 0 && cols > 0 ==> (depth - 1) * bk + (cols - 1) * bc < b@.len(),
                forall|p: int|
                    0 <= p < i * cols + c ==> out@[p] == product_entry(
                        a@,
                        ai as nat,
                        ak as nat,
                        b@,
                        bk as nat,
                        bc as nat,
                        p / cols as int,
                        p % cols as int,
                        depth as nat,
                    ),
            decreases cols - c,
        {
            let mut acc = T::zero();
            let mut k: usize = 0;
            while k < depth
                invariant
                    i < rows,
                    c < cols,
                    k <= depth,
                    alen == a@.len(),
                    blen == b@.len(),
                    rows > 0 && depth > 0 ==> (rows - 1) * ai + (depth - 1) * ak < a@.len(),
                    depth > 0 && cols > 0 ==> (depth - 1) * bk + (cols - 1) * bc < b@.len(),
                    acc == product_entry(a@, ai as nat, ak as nat, b@, bk as nat, bc as nat, i as int, c as int, k as nat),
                decreases depth - k,
            {
                proof {
                    lemma_index_bound(i as int, rows as int, ai as int, k as int, depth as int, ak as int);
                    lemma_index_bound(c as int, cols as int, bc as int, k as int, depth as int, bk as int);
                }
                let x = a[i * ai + k * ak];
                let y = b[k * bk + c * bc];
                acc = acc.add(x.mul(y));
                k = k + 1;
            }
            proof {
                assert(i * cols + c < rows * cols) by (nonlinear_arith)
                    requires
                        i < rows,
                        c < cols,
                ;
                vstd::arithmetic::div_mod::lemma_fundamental_div_mod_converse(
                    (i * cols + c) as int,
                    cols as int,
                    i as int,
                    c as int,
                );
            }
            out.set(i * cols + c, acc);
            c = c + 1;
        }
        assert((i + 1) * cols == i * cols + cols) by (nonlinear_arith);
        assert((i + 1) * cols <= rows * cols) by (nonlinear_arith)
            requires
                i < rows,
        ;
        i = i + 1;
    }
    assert(out@ =~= product(a@, ai as nat, ak as nat, b@, bk as nat, bc as nat, rows as nat, depth as nat, cols as nat));
}

/// A tensor of rank `R`: its extents, and its elements in row-major order.
pub struct Tensor<T, const R: usize> {
    pub(crate) shape: [usize; R],
    pub(crate) data: Vec<T>,
}

impl<T, const R: usize> View for Tensor<T, R> {
    type V = Seq<T>;

    open(crate) spec fn view(&self) -> Seq<T> {
        self.data@
    }
}

impl<T, const R: usize> Tensor<T, R> {
    /// The extents of the tensor, one per axis.
    pub open(crate) spec fn dims(&self) -> Seq<usize> {
        self.shape@
    }

    /// The element count agrees with the extents.
    pub open spec fn wf(&self) -> bool {
        self@.len() == shape_size(self.dims())
    }

    /// A tensor with the given extents and elements; the element count must
    /// be the product of the extents.
    pub fn new(shape: [usize; R], data: Vec<T>) -> (r: Result<Self, LayerError>)
        ensures
            r is Ok <==> data@.len() == shape_size(shape@),
            r is Ok ==> r->Ok_0.dims() == shape@ && r->Ok_0@ == data@ && r->Ok_0.wf(),
            r is Err ==> r == Err::<Self, LayerError>(LayerError::ShapeMismatch),
    {
        match checked_size(&shape) {
            Some(n) => {
                if n == data.len() {
                    Ok(Tensor { shape, data })
                } else {
                    Err(LayerError::ShapeMismatch)
                }
            },
            None => {
                assert(data@.len() == data.len());
                Err(LayerError::ShapeMismatch)
            },
        }
    }

    /// The extents of the tensor.
    pub fn shape(&self) -> (r: [usize; R])
        ensures
            r@ == self.dims(),
    {
        self.shape
    }

    /// The number of elements held.
    pub fn len(&self) -> (r: usize)
        ensures
            r == self@.len(),
    {
        self.data.len()
    }

    /// The elements in row-major order.
    pub fn iter(&self) -> (r: &[T])
        ensures
            r@ == self@,
    {
        self.data.as_slice()
    }

    /// The elements in row-major order, for writing; the extents stay.
    pub fn iter_mut(&mut self) -> (r: &mut [T])
        ensures
            r@ == old(self)@,
            final(self)@ == final(r)@,
            final(self).dims() == old(self).dims(),
    {
        self.data.as_mut_slice()
    }
}

impl<T: Scalar, const R: usize> Tensor<T, R> {
    /// A tensor with the given extents, every element zero.
    pub fn zeros(shape: [usize; R]) -> (r: Result<Self, LayerError>)
        ensures
            r is Ok <==> shape_size(shape@) <= usize::MAX,
            r is Ok ==> r->Ok_0.dims() == shape@ && r->Ok_0.wf() && (forall|i: int|
                0 <= i < r->Ok_0@.len() ==> r->Ok_0@[i] == T::spec_zero()),
            r is Err ==> r == Err::<Self, LayerError>(LayerError::InvalidArgument),
    {
        match checked_size(&shape) {
            Some(n) => {
                let mut data: Vec<T> = Vec::with_capacity(n);
                let mut i: usize = 0;
                while i < n
                    invariant
                        i <= n,
                        data@.len() == i,
                        forall|j: int| 0 <= j < i ==> data@[j] == T::spec_zero(),
                    decreases n - i,
                {
                    data.push(T::zero());
                    i = i + 1;
                }
                Ok(Tensor { shape, data })
            },
            None => Err(LayerError::InvalidArgument),
        }
    }
}

} // verus!
