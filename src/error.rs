//! Failures that layer operations report to their caller.

use vstd::prelude::*;

verus! {

/// Why a layer operation refused to run.
#[derive(Clone, Copy, Debug, PartialEq, Eq, Structural)]
pub enum LayerError {
    /// The shapes or element counts of the tensors handed in disagree.
    ShapeMismatch,
    /// The layer kind does not support the operation.
    NotImplemented,
    /// A scalar argument is outside its domain (an Adam time step of zero).
    InvalidArgument,
}

} // verus!
