//! Activation buffers: the rank-5 tensors that flow between layers.

use vstd::prelude::*;

use crate::error::LayerError;
use crate::layer::Layer;
use crate::scalar::Scalar;
use crate::tensor::{shape_size, Tensor};

verus! {

/// The input or output activations of a layer.
pub struct NodeLayer<T> {
    pub(crate) nodes: Tensor<T, 5>,
}

impl<T> View for NodeLayer<T> {
    type V = Seq<T>;

    open(crate) spec fn view(&self) -> Seq<T> {
        self.nodes@
    }
}

impl<T> NodeLayer<T> {
    /// The extents of the buffer.
    pub open(crate) spec fn dims(&self) -> Seq<usize> {
        self.nodes.dims()
    }

    /// The tensor of activations.
    pub open(crate) spec fn activations(&self) -> Tensor<T, 5> {
        self.nodes
    }

    /// A buffer with the given extents and contents; the element count must
    /// be the product of the extents.
    pub fn new(shape: [usize; 5], data: Vec<T>) -> (r: Result<Self, LayerError>)
        ensures
            r is Ok <==> data@.len() == shape_size(shape@),
            r is Ok ==> r->Ok_0.dims() == shape@ && r->Ok_0@ == data@,
            r is Err ==> r == Err::<Self, LayerError>(LayerError::ShapeMismatch),
    {
        match Tensor::new(shape, data) {
            Ok(nodes) => Ok(NodeLayer { nodes }),
            Err(e) => Err(e),
        }
    }

    /// The activations in row-major order.
    pub fn iter(&self) -> (r: &[T])
        ensures
            r@ == self@,
    {
        self.nodes.iter()
    }

    /// The activations in row-major order, for writing; the extents stay.
    pub fn iter_mut(&mut self) -> (r: &mut [T])
        ensures
            r@ == old(self)@,
            final(self)@ == final(r)@,
            final(self).dims() == old(self).dims(),
    {
        self.nodes.iter_mut()
    }

    /// The tensor that holds the activations.
    pub fn tensor(&self) -> (r: &Tensor<T, 5>)
        ensures
            r@ == self@,
            r.dims() == self.dims(),
    {
        &self.nodes
    }
}

impl<T: Scalar> NodeLayer<T> {
    /// A buffer with the given extents, every activation zero.
    pub fn zeros(shape: [usize; 5]) -> (r: Result<Self, LayerError>)
        ensures
            r is Ok <==> shape_size(shape@) <= usize::MAX,
            r is Ok ==> r->Ok_0.dims() == shape@ && r->Ok_0@.len() == shape_size(shape@) && (forall|i: int|
                0 <= i < r->Ok_0@.len() ==> r->Ok_0@[i] == T::spec_zero()),
            r is Err ==> r == Err::<Self, LayerError>(LayerError::InvalidArgument),
    {
        match Tensor::zeros(shape) {
            Ok(nodes) => Ok(NodeLayer { nodes }),
            Err(e) => Err(e),
        }
    }
}

impl<T> Layer for NodeLayer<T> {

}

} // verus!
