//! The general guarantees of the planner, stated and proved over the plan
//! model that `InputPlanner::run` is verified against.

use vstd::prelude::*;
use crate::context::ContextEntryV;
use crate::context::lookup;
use crate::plan::PlanV;
use crate::plan::PotentialInplaceV;
use crate::planner::Classification;
use crate::planner::PlannerV;
use crate::planner::classify_at;
use crate::planner::element_count;
use crate::planner::global_entry;
use crate::planner::input_binding;
use crate::planner::lemma_element_count_nonneg;
use crate::planner::padded_shape;
use crate::planner::padded_strides;
use crate::planner::reference_proposal;
use crate::planner::run_plan;
use crate::planner::step_plan;
use crate::tensor::TensorDescV;
use crate::tensor::TensorStatus;
use crate::views::InputReference;
use crate::views::TensorViewV;
use crate::views::ViewLink;
use crate::views::scan_views;

verus! {

/// Every registered input, in registration order, produces exactly one
/// handle binding and one global-metadata entry, index-aligned with the
/// input list; entries already in the plan are left untouched.
pub proof fn lemma_run_appends(plan: PlanV, p: PlannerV, ctx: Seq<ContextEntryV>, n: int)
    requires
        0 <= n <= p.inputs.len(),
    ensures
        run_plan(plan, p, ctx, n).rank == plan.rank,
        run_plan(plan, p, ctx, n).handle_inputs.len() == plan.handle_inputs.len() + n,
        run_plan(plan, p, ctx, n).global_inputs.len() == plan.global_inputs.len() + n,
        forall|i: int|
            0 <= i < plan.handle_inputs.len() ==> run_plan(plan, p, ctx, n).handle_inputs[i]
                == plan.handle_inputs[i],
        forall|i: int|
            0 <= i < plan.global_inputs.len() ==> run_plan(plan, p, ctx, n).global_inputs[i]
                == plan.global_inputs[i],
        forall|i: int|
            0 <= i < n ==> run_plan(plan, p, ctx, n).handle_inputs[plan.handle_inputs.len() + i]
                == input_binding(p, ctx, plan.rank, i),
        forall|i: int|
            0 <= i < n ==> run_plan(plan, p, ctx, n).global_inputs[plan.global_inputs.len() + i]
                == global_entry(p, ctx, plan.rank, i),
    decreases n,
{
    if n > 0 {
        lemma_run_appends(plan, p, ctx, n - 1);
    }
}

/// At most one reference choice is ever set per run: once set after `m`
/// inputs, it is never changed by a later input.
pub proof fn lemma_reference_write_once(
    plan: PlanV,
    p: PlannerV,
    ctx: Seq<ContextEntryV>,
    m: int,
    n: int,
)
    requires
        0 <= m <= n,
        run_plan(plan, p, ctx, m).potential_reference_input is Some,
    ensures
        run_plan(plan, p, ctx, n).potential_reference_input == run_plan(
            plan,
            p,
            ctx,
            m,
        ).potential_reference_input,
    decreases n,
{
    if n > m {
        lemma_reference_write_once(plan, p, ctx, m, n - 1);
    }
}

/// The reference choice that planning `n` inputs settles on, starting from
/// a plan with none: the proposal of the first input that makes one.
pub open spec fn first_reference(p: PlannerV, ctx: Seq<ContextEntryV>, n: int) -> Option<
    InputReference,
>
    decreases n,
{
    if n <= 0 {
        None
    } else if first_reference(p, ctx, n - 1) is Some {
        first_reference(p, ctx, n - 1)
    } else {
        reference_proposal(classify_at(p, ctx, n - 1), (n - 1) as usize)
    }
}

/// Starting from a plan with no reference choice, the choice after `n`
/// inputs is the first one found, in registration order.
pub proof fn lemma_reference_first_found(plan: PlanV, p: PlannerV, ctx: Seq<ContextEntryV>, n: int)
    requires
        0 <= n,
        plan.potential_reference_input is None,
    ensures
        run_plan(plan, p, ctx, n).potential_reference_input == first_reference(p, ctx, n),
    decreases n,
{
    if n > 0 {
        lemma_reference_first_found(plan, p, ctx, n - 1);
    }
}

/// The proposal a view scan carries is never a `Normal` reference: a
/// view-linked input is always re-derived.
pub proof fn lemma_scan_proposal_not_normal(
    views: Seq<TensorViewV>,
    t: TensorDescV,
    pos: usize,
    shape_ref: Seq<usize>,
)
    ensures
        scan_views(views, t, pos, shape_ref) matches ViewLink::Linked { proposal: Some(r) }
            ==> !(r matches InputReference::Normal { .. }),
    decreases views.len(),
{
    if views.len() > 0 {
        lemma_scan_proposal_not_normal(views.skip(1), t, pos, shape_ref);
    }
}

/// A record in the in-place candidate list: the input's position, its
/// relative descriptor and its resolved strides.
pub open spec fn inplace_record(p: PlannerV, ctx: Seq<ContextEntryV>, pos: int) -> PotentialInplaceV {
    PotentialInplaceV {
        input_pos: pos as usize,
        tensor_relative: p.inputs[pos].tensor,
        strides: lookup(ctx, p.inputs[pos].tensor.id).unwrap().handle.strides,
    }
}

/// In-place eligibility of the input at `pos`: not unhandled, not
/// view-linked, relative shape equal to the reference shape, relative
/// status read-write, handle mutable in place, and settings permitting
/// in-place reuse.
pub open spec fn inplace_eligible(p: PlannerV, ctx: Seq<ContextEntryV>, pos: int) -> bool {
    let t = p.inputs[pos].tensor;
    let h = lookup(ctx, t.id).unwrap().handle;
    &&& !p.inputs_unhandled.contains(t.id)
    &&& scan_views(p.views, t, pos as usize, p.shape_ref) is NotLinked
    &&& t.shape == p.shape_ref
    &&& t.status == TensorStatus::ReadWrite
    &&& h.can_mut
    &&& p.settings.inplace
}

/// An input is an in-place candidate if and only if it is in-place
/// eligible; every candidate is recorded at its own position with its
/// relative descriptor and strides.
pub proof fn lemma_inplace_iff(plan: PlanV, p: PlannerV, ctx: Seq<ContextEntryV>, n: int)
    requires
        0 <= n <= usize::MAX,
        plan.potential_inplaces == Seq::<PotentialInplaceV>::empty(),
    ensures
        forall|j: int|
            0 <= j < run_plan(plan, p, ctx, n).potential_inplaces.len() ==> {
                let entry = #[trigger] run_plan(plan, p, ctx, n).potential_inplaces[j];
                &&& entry.input_pos < n
                &&& inplace_eligible(p, ctx, entry.input_pos as int)
                &&& entry == inplace_record(p, ctx, entry.input_pos as int)
            },
        forall|i: int|
            0 <= i < n && inplace_eligible(p, ctx, i) ==> exists|j: int|
                0 <= j < run_plan(plan, p, ctx, n).potential_inplaces.len() && #[trigger] run_plan(
                    plan,
                    p,
                    ctx,
                    n,
                ).potential_inplaces[j].input_pos == i as usize,
    decreases n,
{
    if n > 0 {
        lemma_inplace_iff(plan, p, ctx, n - 1);
        let prev = run_plan(plan, p, ctx, n - 1);
        let curr = run_plan(plan, p, ctx, n);
        assert(curr == step_plan(prev, p, ctx, n - 1));
        if classify_at(p, ctx, n - 1) is InplaceCandidate {
            assert(curr.potential_inplaces.last() == inplace_record(p, ctx, n - 1));
            assert(inplace_eligible(p, ctx, n - 1));
            assert forall|i: int| 0 <= i < n && inplace_eligible(p, ctx, i) implies exists|j: int|
                0 <= j < curr.potential_inplaces.len() && #[trigger] curr.potential_inplaces[j].input_pos
                    == i as usize by {
                if i == n - 1 {
                    assert(curr.potential_inplaces[curr.potential_inplaces.len() - 1].input_pos
                        == i as usize);
                } else {
                    let j = choose|j: int|
                        0 <= j < prev.potential_inplaces.len()
                            && #[trigger] prev.potential_inplaces[j].input_pos == i as usize;
                    assert(curr.potential_inplaces[j].input_pos == i as usize);
                }
            }
        } else {
            assert(!inplace_eligible(p, ctx, n - 1));
            assert forall|i: int| 0 <= i < n && inplace_eligible(p, ctx, i) implies exists|j: int|
                0 <= j < curr.potential_inplaces.len() && #[trigger] curr.potential_inplaces[j].input_pos
                    == i as usize by {
                let j = choose|j: int|
                    0 <= j < prev.potential_inplaces.len()
                        && #[trigger] prev.potential_inplaces[j].input_pos == i as usize;
                assert(curr.potential_inplaces[j].input_pos == i as usize);
            }
        }
    }
}

/// An input linked via a reshape or swap-dims view is never present in the
/// in-place candidate list and never yields a `Normal` reference choice.
pub proof fn lemma_view_linked_excluded(
    plan: PlanV,
    p: PlannerV,
    ctx: Seq<ContextEntryV>,
    n: int,
    i: int,
)
    requires
        0 <= i < n <= usize::MAX,
        n <= p.inputs.len(),
        scan_views(p.views, p.inputs[i].tensor, i as usize, p.shape_ref) is Linked,
        plan.potential_inplaces == Seq::<PotentialInplaceV>::empty(),
        plan.potential_reference_input is None,
    ensures
        forall|j: int|
            0 <= j < run_plan(plan, p, ctx, n).potential_inplaces.len() ==> #[trigger] run_plan(
                plan,
                p,
                ctx,
                n,
            ).potential_inplaces[j].input_pos != i as usize,
        run_plan(plan, p, ctx, n).potential_reference_input != Some(
            InputReference::Normal { input_pos: i as usize },
        ),
{
    lemma_inplace_iff(plan, p, ctx, n);
    assert(!inplace_eligible(p, ctx, i));
    assert forall|j: int| 0 <= j < run_plan(plan, p, ctx, n).potential_inplaces.len()
        implies #[trigger] run_plan(plan, p, ctx, n).potential_inplaces[j].input_pos
            != i as usize by {
        let entry = run_plan(plan, p, ctx, n).potential_inplaces[j];
        if entry.input_pos == i as usize {
            assert(entry.input_pos as int == i);
            assert(inplace_eligible(p, ctx, i));
        }
    }
    lemma_reference_first_found(plan, p, ctx, n);
    lemma_first_reference_not_view_linked(p, ctx, n);
}

/// If the first reference found is `Normal`, it names an input whose view
/// scan found no link.
pub proof fn lemma_first_reference_not_view_linked(p: PlannerV, ctx: Seq<ContextEntryV>, n: int)
    requires
        0 <= n <= usize::MAX,
    ensures
        first_reference(p, ctx, n) matches Some(InputReference::Normal { input_pos }) ==> {
            &&& input_pos < n
            &&& scan_views(
                p.views,
                p.inputs[input_pos as int].tensor,
                input_pos,
                p.shape_ref,
            ) is NotLinked
        },
    decreases n,
{
    if n > 0 {
        lemma_first_reference_not_view_linked(p, ctx, n - 1);
        if first_reference(p, ctx, n - 1) is None {
            lemma_scan_proposal_not_normal(
                p.views,
                p.inputs[n - 1].tensor,
                (n - 1) as usize,
                p.shape_ref,
            );
        }
    }
}

/// Rank normalization: a global shape of rank R below the working rank W
/// ends at rank W, left-padded with 1s, and the stride list gains W − R
/// leading copies of the original element count; what was there is kept,
/// shifted right.
pub proof fn lemma_rank_normalization(shape: Seq<usize>, strides: Seq<usize>, rank: usize)
    requires
        shape.len() < rank,
        element_count(shape) <= usize::MAX,
    ensures
        padded_shape(shape, rank).len() == rank,
        padded_strides(strides, shape, rank).len() == strides.len() + rank - shape.len(),
        forall|k: int| 0 <= k < rank - shape.len() ==> padded_shape(shape, rank)[k] == 1,
        forall|k: int|
            0 <= k < rank - shape.len() ==> padded_strides(strides, shape, rank)[k]
                == element_count(shape),
        forall|k: int|
            0 <= k < shape.len() ==> padded_shape(shape, rank)[rank - shape.len() + k] == shape[k],
        forall|k: int|
            0 <= k < strides.len() ==> padded_strides(strides, shape, rank)[rank - shape.len() + k]
                == strides[k],
{
    lemma_element_count_nonneg(shape);
}

/// Classification is unaffected by rank normalization: runs over the same
/// inputs that differ only in the working rank make the same reference
/// choice and collect the same in-place candidates, since every input is
/// classified before its shape is padded.
pub proof fn lemma_padding_independent(
    plan1: PlanV,
    plan2: PlanV,
    p: PlannerV,
    ctx: Seq<ContextEntryV>,
    n: int,
)
    requires
        0 <= n,
        plan1.potential_reference_input == plan2.potential_reference_input,
        plan1.potential_inplaces == plan2.potential_inplaces,
    ensures
        run_plan(plan1, p, ctx, n).potential_reference_input == run_plan(
            plan2,
            p,
            ctx,
            n,
        ).potential_reference_input,
        run_plan(plan1, p, ctx, n).potential_inplaces == run_plan(
            plan2,
            p,
            ctx,
            n,
        ).potential_inplaces,
    decreases n,
{
    if n > 0 {
        lemma_padding_independent(plan1, plan2, p, ctx, n - 1);
    }
}

/// Idempotence: planning the same inputs against the same context state
/// from equal fresh plans yields equal plans, bit for bit.
pub proof fn lemma_run_deterministic(
    plan1: PlanV,
    plan2: PlanV,
    p: PlannerV,
    ctx: Seq<ContextEntryV>,
    n: int,
)
    requires
        plan1 == plan2,
    ensures
        run_plan(plan1, p, ctx, n) == run_plan(plan2, p, ctx, n),
{
}

} // verus!
