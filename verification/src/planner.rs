//! The input planner: resolves every registered input of a fusion group into
//! the launch plan, classifies each one against the view registry, picks at
//! most one shape reference, collects in-place candidates, and normalizes
//! rank mismatches by leading-dimension broadcasting.

use vstd::prelude::*;
use vstd::pervasive::unreached;
use crate::context::ContextEntryV;
use crate::context::TensorContext;
use crate::context::lookup;
use crate::plan::FuseSettings;
use crate::plan::HandleInput;
use crate::plan::HandleInputV;
use crate::plan::LaunchPlan;
use crate::plan::PlanV;
use crate::plan::PotentialInplace;
use crate::plan::PotentialInplaceV;
use crate::tensor::BufferHandle;
use crate::tensor::BufferHandleV;
use crate::tensor::Precision;
use crate::tensor::TensorDesc;
use crate::tensor::TensorDescV;
use crate::tensor::TensorId;
use crate::tensor::TensorStatus;
use crate::tensor::contains_id;
use crate::tensor::copy_desc;
use crate::tensor::copy_dims;
use crate::tensor::dims_equal;
use crate::views::InputReference;
use crate::views::TensorView;
use crate::views::TensorViewV;
use crate::views::ViewLink;
use crate::views::scan_views;
use crate::views::swap_axes_ok;
use crate::views::swapped_shape;

verus! {

/// One registered input of the fusion group: the tensor as the relative
/// graph sees it, with its precision tag.
#[derive(Clone, PartialEq, Eq, Debug)]
pub struct RegisteredInput {
    pub tensor: TensorDesc,
    pub precision: Precision,
}

/// Mathematical model of a [`RegisteredInput`].
#[verifier::ext_equal]
pub ghost struct RegisteredInputV {
    pub tensor: TensorDescV,
    pub precision: Precision,
}

impl View for RegisteredInput {
    type V = RegisteredInputV;

    open spec fn view(&self) -> RegisteredInputV {
        RegisteredInputV { tensor: self.tensor@, precision: self.precision }
    }
}

/// Fetches and registers the input handle bindings of a fusion group and
/// identifies the inputs whose buffer may be reused in place.
pub struct InputPlanner<'a> {
    pub inputs: &'a Vec<RegisteredInput>,
    pub inputs_unhandled: &'a Vec<TensorId>,
    pub views: &'a Vec<TensorView>,
    pub shape_ref: &'a Vec<usize>,
    pub settings: &'a FuseSettings,
}

/// Mathematical model of an [`InputPlanner`].
#[verifier::ext_equal]
pub ghost struct PlannerV {
    pub inputs: Seq<RegisteredInputV>,
    pub inputs_unhandled: Seq<TensorId>,
    pub views: Seq<TensorViewV>,
    pub shape_ref: Seq<usize>,
    pub settings: FuseSettings,
}

impl<'a> View for InputPlanner<'a> {
    type V = PlannerV;

    open spec fn view(&self) -> PlannerV {
        PlannerV {
            inputs: self.inputs@.map_values(|r: RegisteredInput| r@),
            inputs_unhandled: self.inputs_unhandled@,
            views: self.views@.map_values(|v: TensorView| v@),
            shape_ref: self.shape_ref@,
            settings: *self.settings,
        }
    }
}

/// How one input is classified, in decision order: unhandled inputs are
/// skipped entirely; otherwise the view registry decides first, then the
/// shape gate, then in-place eligibility.
pub ghost enum Classification {
    /// The identity is in the unhandled set: synthetic, never a reference or
    /// in-place candidate.
    Unhandled,
    /// A registered view links the input; it may contribute at most the
    /// carried reference proposal.
    ViewLinked { proposal: Option<InputReference> },
    /// The relative shape differs from the reference shape: the input is a
    /// plain broadcast/auxiliary operand.
    ShapeMismatch,
    /// Shape matches, the relative status is read-write, the handle is
    /// mutable in place and the settings permit reuse.
    InplaceCandidate,
    /// Shape matches but the input is not in-place eligible.
    NormalCandidate,
}

/// Classifies the input `t` at position `pos`, given its resolved handle.
pub open spec fn classify_input(p: PlannerV, t: TensorDescV, h: BufferHandleV, pos: usize) -> Classification {
    if p.inputs_unhandled.contains(t.id) {
        Classification::Unhandled
    } else {
        match scan_views(p.views, t, pos, p.shape_ref) {
            ViewLink::Linked { proposal } => Classification::ViewLinked { proposal },
            ViewLink::NotLinked => {
                if t.shape != p.shape_ref {
                    Classification::ShapeMismatch
                } else if t.status == TensorStatus::ReadWrite && h.can_mut && p.settings.inplace {
                    Classification::InplaceCandidate
                } else {
                    Classification::NormalCandidate
                }
            },
        }
    }
}

/// Classification of the registered input at `pos`, as `run` performs it:
/// against the input's relative descriptor and its handle as resolved from
/// the context.
pub open spec fn classify_at(p: PlannerV, ctx: Seq<ContextEntryV>, pos: int) -> Classification {
    classify_input(
        p,
        p.inputs[pos].tensor,
        lookup(ctx, p.inputs[pos].tensor.id).unwrap().handle,
        pos as usize,
    )
}

/// The reference choice an input's classification proposes, if any. A
/// proposal is honored only while no reference has been chosen yet.
pub open spec fn reference_proposal(c: Classification, pos: usize) -> Option<InputReference> {
    match c {
        Classification::Unhandled => None,
        Classification::ViewLinked { proposal } => proposal,
        Classification::ShapeMismatch => None,
        Classification::InplaceCandidate => Some(InputReference::Normal { input_pos: pos }),
        Classification::NormalCandidate => Some(InputReference::Normal { input_pos: pos }),
    }
}

/// Effect of classification on the plan: the reference choice is filled if
/// still unset (first found wins, never overwritten), and an in-place
/// candidate is appended when the input is in-place eligible.
pub open spec fn apply_analysis(plan: PlanV, p: PlannerV, t: TensorDescV, h: BufferHandleV, pos: usize) -> PlanV {
    let c = classify_input(p, t, h, pos);
    PlanV {
        potential_reference_input: if plan.potential_reference_input is None {
            reference_proposal(c, pos)
        } else {
            plan.potential_reference_input
        },
        potential_inplaces: if c is InplaceCandidate {
            plan.potential_inplaces.push(
                PotentialInplaceV { input_pos: pos, tensor_relative: t, strides: h.strides },
            )
        } else {
            plan.potential_inplaces
        },
        ..plan
    }
}

/// A tensor's element count: the product of its dimensions, taken left to
/// right.
pub open spec fn element_count(shape: Seq<usize>) -> int
    decreases shape.len(),
{
    if shape.len() == 0 {
        1
    } else {
        element_count(shape.drop_last()) * shape.last()
    }
}

/// Every prefix product of the shape fits the machine word, in the order the
/// element count is computed.
pub open spec fn element_count_fits(shape: Seq<usize>) -> bool {
    forall|i: int| 0 <= i <= shape.len() ==> element_count(#[trigger] shape.take(i)) <= usize::MAX
}

/// A shape left-padded with 1s up to the working rank; shapes already at
/// rank or above are untouched.
pub open spec fn padded_shape(shape: Seq<usize>, rank: usize) -> Seq<usize> {
    if shape.len() < rank {
        Seq::new((rank - shape.len()) as nat, |i: int| 1usize) + shape
    } else {
        shape
    }
}

/// A stride list left-padded, once per padded dimension, with the original
/// element count, so downstream iteration can tell a padded broadcast axis
/// from a real stride-0 broadcast axis.
pub open spec fn padded_strides(strides: Seq<usize>, shape: Seq<usize>, rank: usize) -> Seq<usize> {
    if shape.len() < rank {
        Seq::new((rank - shape.len()) as nat, |i: int| element_count(shape) as usize) + strides
    } else {
        strides
    }
}

/// The handle binding appended to the plan for the input at `pos`.
pub open spec fn input_binding(p: PlannerV, ctx: Seq<ContextEntryV>, rank: usize, pos: int) -> HandleInputV {
    let t = p.inputs[pos].tensor;
    let e = lookup(ctx, t.id).unwrap();
    HandleInputV {
        precision: p.inputs[pos].precision,
        handle: BufferHandleV {
            strides: padded_strides(e.handle.strides, e.global.shape, rank),
            can_mut: e.handle.can_mut,
        },
        relative_id: t.id,
        global_id: e.global.id,
        global_shape: padded_shape(e.global.shape, rank),
        vectorization: 1,
        broadcasted: false,
    }
}

/// The global-metadata entry appended to the plan for the input at `pos`.
pub open spec fn global_entry(p: PlannerV, ctx: Seq<ContextEntryV>, rank: usize, pos: int) -> TensorDescV {
    let e = lookup(ctx, p.inputs[pos].tensor.id).unwrap();
    TensorDescV { id: e.global.id, shape: padded_shape(e.global.shape, rank), status: e.global.status }
}

/// One step of `run`: classify the input at `pos` against the unpadded
/// global shape, then append its rank-normalized binding and global
/// metadata.
pub open spec fn step_plan(plan: PlanV, p: PlannerV, ctx: Seq<ContextEntryV>, pos: int) -> PlanV {
    let t = p.inputs[pos].tensor;
    let e = lookup(ctx, t.id).unwrap();
    let analyzed = apply_analysis(plan, p, t, e.handle, pos as usize);
    PlanV {
        handle_inputs: analyzed.handle_inputs.push(input_binding(p, ctx, plan.rank, pos)),
        global_inputs: analyzed.global_inputs.push(global_entry(p, ctx, plan.rank, pos)),
        ..analyzed
    }
}

/// The plan after planning the first `n` registered inputs, in registration
/// order.
pub open spec fn run_plan(plan: PlanV, p: PlannerV, ctx: Seq<ContextEntryV>, n: int) -> PlanV
    decreases n,
{
    if n <= 0 {
        plan
    } else {
        step_plan(run_plan(plan, p, ctx, n - 1), p, ctx, n - 1)
    }
}

/// What `run` needs of the input at `i`: the identity resolves in the
/// context (a miss is an upstream contract violation); the first swap view
/// reached for it names axes of its shape; and if its global shape will be
/// padded, its element count is computable in a machine word.
pub open spec fn run_input_ok(p: PlannerV, ctx: Seq<ContextEntryV>, rank: usize, i: int) -> bool {
    let t = p.inputs[i].tensor;
    &&& lookup(ctx, t.id) is Some
    &&& swap_axes_ok(p.views, t)
    &&& (lookup(ctx, t.id).unwrap().global.shape.len() < rank ==> element_count_fits(
        lookup(ctx, t.id).unwrap().global.shape,
    ))
}

/// Precondition of `run` over all registered inputs.
pub open spec fn run_ready(p: PlannerV, ctx: Seq<ContextEntryV>, rank: usize) -> bool {
    forall|i: int| 0 <= i < p.inputs.len() ==> #[trigger] run_input_ok(p, ctx, rank, i)
}

/// The element count of a shape is nonnegative.
pub proof fn lemma_element_count_nonneg(shape: Seq<usize>)
    ensures
        element_count(shape) >= 0,
    decreases shape.len(),
{
    if shape.len() > 0 {
        lemma_element_count_nonneg(shape.drop_last());
        assert(element_count(shape.drop_last()) * shape.last() >= 0) by (nonlinear_arith)
            requires
                element_count(shape.drop_last()) >= 0,
                shape.last() >= 0,
        ;
    }
}

/// Computes a shape's element count, multiplying left to right.
fn compute_element_count(shape: &Vec<usize>) -> (r: usize)
    requires
        element_count_fits(shape@),
    ensures
        r == element_count(shape@),
{
    let n = shape.len();
    let mut acc: usize = 1;
    let mut i: usize = 0;
    proof {
        assert(shape@.take(0) =~= Seq::<usize>::empty());
    }
    while i < n
        invariant
            i <= n,
            n == shape@.len(),
            element_count_fits(shape@),
            acc == element_count(shape@.take(i as int)),
        decreases n - i,
    {
        proof {
            assert(shape@.take(i as int + 1).drop_last() =~= shape@.take(i as int));
            assert(shape@.take(i as int + 1).last() == shape@[i as int]);
            assert(element_count(shape@.take(i as int + 1)) <= usize::MAX);
            lemma_element_count_nonneg(shape@.take(i as int + 1));
        }
        acc = acc * shape[i];
        i += 1;
    }
    proof {
        assert(shape@.take(n as int) =~= shape@);
    }
    acc
}

/// Left-pads `shape` with 1s and `strides` with the original element count
/// up to the working rank; a shape already at the working rank or above is
/// handed back unchanged.
fn pad_to_rank(shape: Vec<usize>, strides: Vec<usize>, rank: usize) -> (r: (Vec<usize>, Vec<usize>))
    requires
        shape@.len() < rank ==> element_count_fits(shape@),
    ensures
        r.0@ == padded_shape(shape@, rank),
        r.1@ == padded_strides(strides@, shape@, rank),
{
    let mut shape = shape;
    let mut strides = strides;
    let ghost shape0 = shape@;
    let ghost strides0 = strides@;
    if shape.len() < rank {
        let num_elem = compute_element_count(&shape);
        let pad = rank - shape.len();
        let mut k: usize = 0;
        proof {
            assert(shape@ =~= Seq::new(0nat, |i: int| 1usize) + shape0);
            assert(strides@ =~= Seq::new(0nat, |i: int| num_elem) + strides0);
        }
        while k < pad
            invariant
                k <= pad,
                pad == rank - shape0.len(),
                shape0.len() < rank,
                num_elem == element_count(shape0),
                shape@ == Seq::new(k as nat, |i: int| 1usize) + shape0,
                strides@ == Seq::new(k as nat, |i: int| num_elem) + strides0,
            decreases pad - k,
        {
            shape.insert(0, 1);
            strides.insert(0, num_elem);
            k += 1;
            proof {
                assert(shape@ =~= Seq::new(k as nat, |i: int| 1usize) + shape0);
                assert(strides@ =~= Seq::new(k as nat, |i: int| num_elem) + strides0);
            }
        }
        proof {
            assert(shape@ =~= padded_shape(shape0, rank));
            assert(strides@ =~= padded_strides(strides0, shape0, rank));
        }
    }
    (shape, strides)
}

impl<'a> InputPlanner<'a> {
    /// Builds a planner over the fusion group's registered inputs, unhandled
    /// identities, view registry, target reference shape and settings, all
    /// borrowed for the duration of the run.
    pub fn new(
        inputs: &'a Vec<RegisteredInput>,
        inputs_unhandled: &'a Vec<TensorId>,
        views: &'a Vec<TensorView>,
        shape_ref: &'a Vec<usize>,
        settings: &'a FuseSettings,
    ) -> (planner: InputPlanner<'a>)
        ensures
            planner@.inputs == inputs@.map_values(|r: RegisteredInput| r@),
            planner@.inputs_unhandled == inputs_unhandled@,
            planner@.views == views@.map_values(|v: TensorView| v@),
            planner@.shape_ref == shape_ref@,
            planner@.settings == *settings,
    {
        InputPlanner { inputs, settings, inputs_unhandled, views, shape_ref }
    }

    /// Resolves every registered input, in registration order, into the
    /// plan: exactly one handle binding and one global-metadata entry per
    /// input. Each input is classified against its original global shape
    /// first; rank normalization happens afterwards, for kernel execution
    /// purposes only. The context is only read; the plan only grows.
    #[verifier::loop_isolation(false)]
    pub fn run(self, context: &TensorContext, plan: &mut LaunchPlan)
        requires
            run_ready(self@, context@, old(plan)@.rank),
        ensures
            final(plan)@ == run_plan(old(plan)@, self@, context@, self@.inputs.len() as int),
    {
        let n = self.inputs.len();
        let mut pos: usize = 0;
        while pos < n
            invariant
                pos <= n,
                plan@ == run_plan(old(plan)@, self@, context@, pos as int),
                plan@.rank == old(plan)@.rank,
            decreases n - pos,
        {
            proof {
                assert(run_input_ok(self@, context@, old(plan)@.rank, pos as int));
                assert(self@.inputs[pos as int] == self.inputs@[pos as int]@);
            }
            let reg = &self.inputs[pos];
            let resolved = context.resolve(reg.tensor.id, reg.tensor.status);
            let (tensor_global, handle) = match resolved {
                Some(gh) => gh,
                None => unreached(),
            };
            let ghost e = lookup(context@, reg.tensor@.id).unwrap();
            self.analyze(plan, pos, &reg.tensor, &handle);
            let ghost analyzed_plan = plan@;
            let TensorDesc { id: gid, shape: shape0, status: gstatus } = tensor_global;
            let BufferHandle { strides: strides0, can_mut } = handle;
            let ghost gshape0 = shape0@;
            let ghost gstrides0 = strides0@;
            let (gshape, gstrides) = pad_to_rank(shape0, strides0, plan.rank);
            let binding = HandleInput {
                precision: reg.precision,
                handle: BufferHandle { strides: gstrides, can_mut },
                relative_id: reg.tensor.id,
                global_id: gid,
                global_shape: copy_dims(&gshape),
                vectorization: 1,
                broadcasted: false,
            };
            plan.handle_inputs.push(binding);
            plan.global_inputs.push(TensorDesc { id: gid, shape: gshape, status: gstatus });
            proof {
                let p = self@;
                let ctx = context@;
                let prev = run_plan(old(plan)@, p, ctx, pos as int);
                assert(prev.rank == old(plan)@.rank);
                assert(e.global.shape == gshape0);
                assert(e.handle.strides == gstrides0);
                assert(analyzed_plan == apply_analysis(prev, p, p.inputs[pos as int].tensor, e.handle, pos));
                assert(plan@.handle_inputs.last() =~= input_binding(p, ctx, prev.rank, pos as int));
                assert(plan@.global_inputs.last() =~= global_entry(p, ctx, prev.rank, pos as int));
                assert(plan@.handle_inputs =~= analyzed_plan.handle_inputs.push(
                    input_binding(p, ctx, prev.rank, pos as int),
                ));
                assert(plan@.global_inputs =~= analyzed_plan.global_inputs.push(
                    global_entry(p, ctx, prev.rank, pos as int),
                ));
                assert(plan@ =~= step_plan(prev, p, ctx, pos as int));
            }
            pos += 1;
        }
    }

    /// Classifies one input, before any rank normalization. Unhandled
    /// identities are skipped entirely. The first registered view that
    /// mentions the input decides its fate; otherwise the input must match
    /// the reference shape to become the reference choice (first found
    /// wins), and, when read-write, mutable in place and permitted by the
    /// settings, an in-place candidate.
    #[verifier::loop_isolation(false)]
    fn analyze(
        &self,
        plan: &mut LaunchPlan,
        pos: usize,
        tensor_relative: &TensorDesc,
        handle: &BufferHandle,
    )
        requires
            swap_axes_ok(self@.views, tensor_relative@),
        ensures
            final(plan)@ == apply_analysis(old(plan)@, self@, tensor_relative@, handle@, pos),
    {
        let ghost t = tensor_relative@;
        let ghost sref = self@.shape_ref;
        if contains_id(self.inputs_unhandled, tensor_relative.id) {
            proof {
                assert(plan@ =~= apply_analysis(old(plan)@, self@, t, handle@, pos));
            }
            return;
        }
        let nviews = self.views.len();
        let mut vi: usize = 0;
        proof {
            assert(self@.views.skip(0) =~= self@.views);
        }
        while vi < nviews
            invariant
                vi <= nviews,
                plan@ == old(plan)@,
                scan_views(self@.views.skip(vi as int), t, pos, sref) == scan_views(
                    self@.views,
                    t,
                    pos,
                    sref,
                ),
                swap_axes_ok(self@.views.skip(vi as int), t) == swap_axes_ok(self@.views, t),
            decreases nviews - vi,
        {
            proof {
                assert(self@.views.skip(vi as int)[0] == self@.views[vi as int]);
                assert(self@.views[vi as int] == self.views@[vi as int]@);
            }
            match &self.views[vi] {
                TensorView::Reshape { reshaped, original, reshape_pos, shape_relative } => {
                    if *original == tensor_relative.id || *reshaped == tensor_relative.id {
                        if plan.potential_reference_input.is_none() && dims_equal(
                            shape_relative,
                            self.shape_ref,
                        ) {
                            plan.potential_reference_input = Some(
                                InputReference::Reshaped { reshape_pos: *reshape_pos },
                            );
                        }
                        proof {
                            assert(plan@ =~= apply_analysis(old(plan)@, self@, t, handle@, pos));
                        }
                        return;
                    }
                },
                TensorView::SwapDims { swapped, original, dims } => {
                    if *swapped == tensor_relative.id {
                        proof {
                            assert(plan@ =~= apply_analysis(old(plan)@, self@, t, handle@, pos));
                        }
                        return;
                    }
                    if *original == tensor_relative.id {
                        if plan.potential_reference_input.is_none() {
                            let shape = swapped_shape(&tensor_relative.shape, dims.a, dims.b);
                            if dims_equal(&shape, self.shape_ref) {
                                plan.potential_reference_input = Some(
                                    InputReference::SwapDims { original_pos: pos, dims: *dims },
                                );
                            }
                        }
                        proof {
                            assert(plan@ =~= apply_analysis(old(plan)@, self@, t, handle@, pos));
                        }
                        return;
                    }
                },
            }
            proof {
                assert(self@.views.skip(vi as int).skip(1) =~= self@.views.skip(vi as int + 1));
            }
            vi += 1;
        }
        proof {
            assert(self@.views.skip(nviews as int) =~= Seq::<TensorViewV>::empty());
        }
        if !dims_equal(&tensor_relative.shape, self.shape_ref) {
            proof {
                assert(plan@ =~= apply_analysis(old(plan)@, self@, t, handle@, pos));
            }
            return;
        }
        if tensor_relative.status == TensorStatus::ReadWrite && handle.can_mut
            && self.settings.inplace {
            plan.potential_inplaces.push(
                PotentialInplace {
                    input_pos: pos,
                    tensor_relative: copy_desc(tensor_relative),
                    strides: copy_dims(&handle.strides),
                },
            );
            if plan.potential_reference_input.is_none() {
                plan.potential_reference_input = Some(InputReference::Normal { input_pos: pos });
            }
            proof {
                assert(plan@.potential_inplaces =~= old(plan)@.potential_inplaces.push(
                    PotentialInplaceV { input_pos: pos, tensor_relative: t, strides: handle@.strides },
                ));
                assert(plan@ =~= apply_analysis(old(plan)@, self@, t, handle@, pos));
            }
        } else {
            if plan.potential_reference_input.is_none() {
                plan.potential_reference_input = Some(InputReference::Normal { input_pos: pos });
            }
            proof {
                assert(plan@ =~= apply_analysis(old(plan)@, self@, t, handle@, pos));
            }
        }
    }
}

} // verus!
