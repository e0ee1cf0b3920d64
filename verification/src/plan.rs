//! The launch plan: the shared output structure the planner appends its
//! findings to, and the fusion settings that steer it.

use vstd::prelude::*;
use crate::tensor::BufferHandle;
use crate::tensor::BufferHandleV;
use crate::tensor::Precision;
use crate::tensor::TensorDesc;
use crate::tensor::TensorDescV;
use crate::tensor::TensorId;
use crate::views::InputReference;

verus! {

/// Policy knobs for the fusion pass; `inplace` permits reusing an input
/// buffer for an output.
#[derive(Clone, Copy, PartialEq, Eq, Structural, Debug)]
pub struct FuseSettings {
    pub inplace: bool,
}

/// One resolved per-input binding appended to the launch plan. The
/// vectorization factor and the broadcast flag are fixed here (1 and false);
/// later passes own them.
#[derive(Clone, PartialEq, Eq, Debug)]
pub struct HandleInput {
    pub precision: Precision,
    pub handle: BufferHandle,
    pub relative_id: TensorId,
    pub global_id: TensorId,
    pub global_shape: Vec<usize>,
    pub vectorization: u8,
    pub broadcasted: bool,
}

/// Mathematical model of a [`HandleInput`].
#[verifier::ext_equal]
pub ghost struct HandleInputV {
    pub precision: Precision,
    pub handle: BufferHandleV,
    pub relative_id: TensorId,
    pub global_id: TensorId,
    pub global_shape: Seq<usize>,
    pub vectorization: u8,
    pub broadcasted: bool,
}

impl View for HandleInput {
    type V = HandleInputV;

    open spec fn view(&self) -> HandleInputV {
        HandleInputV {
            precision: self.precision,
            handle: self.handle@,
            relative_id: self.relative_id,
            global_id: self.global_id,
            global_shape: self.global_shape@,
            vectorization: self.vectorization,
            broadcasted: self.broadcasted,
        }
    }
}

/// An input whose backing buffer may be reused for an output: a proposal
/// only, recorded with the input's position, relative descriptor and
/// strides; a later stage decides actual reuse.
#[derive(Clone, PartialEq, Eq, Debug)]
pub struct PotentialInplace {
    pub input_pos: usize,
    pub tensor_relative: TensorDesc,
    pub strides: Vec<usize>,
}

/// Mathematical model of a [`PotentialInplace`].
#[verifier::ext_equal]
pub ghost struct PotentialInplaceV {
    pub input_pos: usize,
    pub tensor_relative: TensorDescV,
    pub strides: Seq<usize>,
}

impl View for PotentialInplace {
    type V = PotentialInplaceV;

    open spec fn view(&self) -> PotentialInplaceV {
        PotentialInplaceV {
            input_pos: self.input_pos,
            tensor_relative: self.tensor_relative@,
            strides: self.strides@,
        }
    }
}

/// The launch plan for one fusion-group compilation. The planner appends
/// per-input bindings and global metadata in registration order, fills the
/// reference choice at most once, and collects in-place candidates; it never
/// removes or rewrites what is already there.
#[derive(Clone, PartialEq, Eq, Debug)]
pub struct LaunchPlan {
    /// The working rank the fused kernel iterates at.
    pub rank: usize,
    pub handle_inputs: Vec<HandleInput>,
    pub global_inputs: Vec<TensorDesc>,
    pub potential_reference_input: Option<InputReference>,
    pub potential_inplaces: Vec<PotentialInplace>,
}

/// Mathematical model of a [`LaunchPlan`].
#[verifier::ext_equal]
pub ghost struct PlanV {
    pub rank: usize,
    pub handle_inputs: Seq<HandleInputV>,
    pub global_inputs: Seq<TensorDescV>,
    pub potential_reference_input: Option<InputReference>,
    pub potential_inplaces: Seq<PotentialInplaceV>,
}

impl View for LaunchPlan {
    type V = PlanV;

    open spec fn view(&self) -> PlanV {
        PlanV {
            rank: self.rank,
            handle_inputs: self.handle_inputs@.map_values(|h: HandleInput| h@),
            global_inputs: self.global_inputs@.map_values(|t: TensorDesc| t@),
            potential_reference_input: self.potential_reference_input,
            potential_inplaces: self.potential_inplaces@.map_values(|c: PotentialInplace| c@),
        }
    }
}

impl LaunchPlan {
    /// A fresh, empty plan for one compilation at the given working rank.
    pub fn new(rank: usize) -> (p: LaunchPlan)
        ensures
            p@.rank == rank,
            p@.handle_inputs == Seq::<HandleInputV>::empty(),
            p@.global_inputs == Seq::<TensorDescV>::empty(),
            p@.potential_reference_input is None,
            p@.potential_inplaces == Seq::<PotentialInplaceV>::empty(),
    {
        LaunchPlan {
            rank,
            handle_inputs: Vec::new(),
            global_inputs: Vec::new(),
            potential_reference_input: None,
            potential_inplaces: Vec::new(),
        }
    }
}

} // verus!
