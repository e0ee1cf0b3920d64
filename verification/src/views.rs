//! Non-materializing view descriptors (reshape, dimension swap), the shape
//! reference choice, and the specification of how the view registry is
//! scanned when an input is classified.

use vstd::prelude::*;
use crate::tensor::TensorDescV;
use crate::tensor::TensorId;
use crate::tensor::copy_dims;

verus! {

/// The pair of axes a dimension-swap view exchanges.
#[derive(Clone, Copy, PartialEq, Eq, Structural, Debug)]
pub struct AxisPair {
    pub a: usize,
    pub b: usize,
}

/// A registered non-materializing relationship between two tensor identities:
/// one identity reinterprets the other's storage without a new allocation.
#[derive(Clone, PartialEq, Eq, Debug)]
pub enum TensorView {
    /// `reshaped` reinterprets `original`; `reshape_pos` is the position of
    /// the reshape operation and `shape_relative` the recorded reshaped shape.
    Reshape { reshaped: TensorId, original: TensorId, reshape_pos: usize, shape_relative: Vec<usize> },
    /// `swapped` reinterprets `original` with the axis pair `dims` exchanged.
    SwapDims { swapped: TensorId, original: TensorId, dims: AxisPair },
}

/// Mathematical model of a [`TensorView`].
#[verifier::ext_equal]
pub ghost enum TensorViewV {
    Reshape { reshaped: TensorId, original: TensorId, reshape_pos: usize, shape_relative: Seq<usize> },
    SwapDims { swapped: TensorId, original: TensorId, dims: AxisPair },
}

impl View for TensorView {
    type V = TensorViewV;

    open spec fn view(&self) -> TensorViewV {
        match self {
            TensorView::Reshape { reshaped, original, reshape_pos, shape_relative } => (
                TensorViewV::Reshape {
                    reshaped: *reshaped,
                    original: *original,
                    reshape_pos: *reshape_pos,
                    shape_relative: shape_relative@,
                }
            ),
            TensorView::SwapDims { swapped, original, dims } => (
                TensorViewV::SwapDims { swapped: *swapped, original: *original, dims: *dims }
            ),
        }
    }
}

/// The chosen strategy for deriving the fused kernel's iteration shape.
#[derive(Clone, Copy, PartialEq, Eq, Debug)]
pub enum InputReference {
    /// An ordinary input at this position already matches the reference shape.
    Normal { input_pos: usize },
    /// Re-derive the reshape recorded at this operation position.
    Reshaped { reshape_pos: usize },
    /// Swap the axis pair of the input at this position at runtime.
    SwapDims { original_pos: usize, dims: AxisPair },
}

/// The shape obtained by exchanging the axes `d0` and `d1`.
pub open spec fn swap_shape(shape: Seq<usize>, d0: usize, d1: usize) -> Seq<usize>
    recommends
        d0 < shape.len(),
        d1 < shape.len(),
{
    shape.update(d0 as int, shape[d1 as int]).update(d1 as int, shape[d0 as int])
}

/// Outcome of scanning the view registry for one input.
pub ghost enum ViewLink {
    /// No registered view mentions the input: classification continues.
    NotLinked,
    /// A view mentions the input; `proposal` is the reference choice the view
    /// puts forward, applied only while no reference has been chosen yet.
    Linked { proposal: Option<InputReference> },
}

/// Scans the registered views in order for the input `t` at position `pos`.
/// The first view that mentions `t.id` decides: a reshape view proposes
/// re-deriving the reshape when its recorded shape equals the reference
/// shape; a swap view whose output is `t` proposes nothing; a swap view whose
/// operand is `t` proposes swapping when the swapped relative shape equals
/// the reference shape.
pub open spec fn scan_views(
    views: Seq<TensorViewV>,
    t: TensorDescV,
    pos: usize,
    shape_ref: Seq<usize>,
) -> ViewLink
    decreases views.len(),
{
    if views.len() == 0 {
        ViewLink::NotLinked
    } else {
        match views[0] {
            TensorViewV::Reshape { reshaped, original, reshape_pos, shape_relative } => {
                if original == t.id || reshaped == t.id {
                    ViewLink::Linked {
                        proposal: if shape_relative == shape_ref {
                            Some(InputReference::Reshaped { reshape_pos })
                        } else {
                            None
                        },
                    }
                } else {
                    scan_views(views.skip(1), t, pos, shape_ref)
                }
            },
            TensorViewV::SwapDims { swapped, original, dims } => {
                if swapped == t.id {
                    ViewLink::Linked { proposal: None }
                } else if original == t.id {
                    ViewLink::Linked {
                        proposal: if swap_shape(t.shape, dims.a, dims.b) == shape_ref {
                            Some(InputReference::SwapDims { original_pos: pos, dims })
                        } else {
                            None
                        },
                    }
                } else {
                    scan_views(views.skip(1), t, pos, shape_ref)
                }
            },
        }
    }
}

/// Well-formedness of the view registry with respect to the input `t`: if the
/// first view that mentions `t.id` is a dimension swap whose operand is `t`,
/// its axis pair must name axes of `t`'s shape.
pub open spec fn swap_axes_ok(views: Seq<TensorViewV>, t: TensorDescV) -> bool
    decreases views.len(),
{
    if views.len() == 0 {
        true
    } else {
        match views[0] {
            TensorViewV::Reshape { reshaped, original, .. } => {
                if original == t.id || reshaped == t.id {
                    true
                } else {
                    swap_axes_ok(views.skip(1), t)
                }
            },
            TensorViewV::SwapDims { swapped, original, dims } => {
                if swapped == t.id {
                    true
                } else if original == t.id {
                    dims.a < t.shape.len() && dims.b < t.shape.len()
                } else {
                    swap_axes_ok(views.skip(1), t)
                }
            },
        }
    }
}

/// Builds the shape obtained by exchanging the axes `d0` and `d1`.
pub fn swapped_shape(shape: &Vec<usize>, d0: usize, d1: usize) -> (r: Vec<usize>)
    requires
        d0 < shape@.len(),
        d1 < shape@.len(),
    ensures
        r@ == swap_shape(shape@, d0, d1),
{
    let mut r = copy_dims(shape);
    let a = r[d0];
    let b = r[d1];
    r.set(d0, b);
    r.set(d1, a);
    proof {
        assert(r@ =~= swap_shape(shape@, d0, d1));
    }
    r
}

} // verus!
