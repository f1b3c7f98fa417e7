//! Properties of the indicator's frame that hold for every state.

use vstd::prelude::*;
use vstd::set_lib::{lemma_int_range, set_int_range};
use crate::geometry::{shifted, swap, DrawPlan, CIRCLE_RADIUS};
use crate::progress_step::{
    across, along, check_suffix, middle, Mode, ProgressStep, LABEL_INDENT, LABEL_RISE,
};

verus! {

/// The indices of the steps whose label in `plan` is their own label with the
/// check mark appended.
pub open spec fn checked_steps(p: ProgressStep, plan: DrawPlan) -> Set<int> {
    Set::new(
        |i: int|
            0 <= i < p.steps@.len() && plan.labels@[i].text@ == p.steps@[i]@ + check_suffix(),
    )
}

/// With the current step inside the list, the labels that carry the check mark
/// are exactly those of the steps before the current one, so there are
/// `current_step` of them; and the one label in bold is the current step's.
pub proof fn lemma_marks(p: ProgressStep, plan: DrawPlan)
    requires
        p.current_step < p.steps@.len(),
        p.renders(plan),
    ensures
        checked_steps(p, plan) == set_int_range(0, p.current_step as int),
        checked_steps(p, plan).len() == p.current_step,
        forall|i: int|
            0 <= i < p.steps@.len() ==> (#[trigger] plan.labels@[i].bold <==> i
                == p.current_step),
{
    assert forall|i: int| #[trigger]
        checked_steps(p, plan).contains(i) <==> set_int_range(0, p.current_step as int).contains(
            i,
        ) by {
        if 0 <= i < p.steps@.len() && i >= p.current_step {
            assert(plan.labels@[i].text@ == p.labels()[i]);
            assert((p.steps@[i]@ + check_suffix()).len() == p.steps@[i]@.len() + 2);
        }
        if 0 <= i < p.current_step {
            assert(plan.labels@[i].text@ == p.labels()[i] + check_suffix());
        }
    }
    assert(checked_steps(p, plan) =~= set_int_range(0, p.current_step as int));
    lemma_int_range(0, p.current_step as int);
}

/// There is one circle per step, each of radius 8; circle `i` of `n` is centred
/// at the fraction `(i + 1/2) / n` of the extent along the layout axis and in
/// the middle across it, so neighbouring centres are one `n`-th of the extent
/// apart.
pub proof fn lemma_circles(p: ProgressStep, plan: DrawPlan)
    requires
        p.steps@.len() <= usize::MAX,
        p.renders(plan),
    ensures
        plan.circles@.len() == p.steps@.len(),
        forall|i: int|
            0 <= i < p.steps@.len() ==> {
                &&& (#[trigger] plan.circles@[i]).radius == 8
                &&& along(p.mode, plan.circles@[i].center).num == 2 * i + 1
                &&& along(p.mode, plan.circles@[i].center).den == 2 * p.steps@.len()
                &&& along(p.mode, plan.circles@[i].center).offset == 0
                &&& across(p.mode, plan.circles@[i].center) == middle(0)
            },
{
    assert forall|i: int| 0 <= i < p.steps@.len() implies {
        &&& (#[trigger] plan.circles@[i]).radius == 8
        &&& along(p.mode, plan.circles@[i].center).num == 2 * i + 1
        &&& along(p.mode, plan.circles@[i].center).den == 2 * p.steps@.len()
        &&& along(p.mode, plan.circles@[i].center).offset == 0
        &&& across(p.mode, plan.circles@[i].center) == middle(0)
    } by {
        assert(p.labels().len() == p.steps@.len());
    }
}

/// A frame of at least one step has one connector fewer than it has steps.
pub proof fn lemma_connector_count(p: ProgressStep, plan: DrawPlan)
    requires
        p.steps@.len() >= 1,
        p.renders(plan),
    ensures
        plan.connectors@.len() == p.steps@.len() - 1,
{
}

/// Connector `k` runs from circle `k` to circle `k + 1` on their common line
/// and stops a circle radius short of each centre.
pub proof fn lemma_connector_clearance(p: ProgressStep, plan: DrawPlan)
    requires
        p.renders(plan),
    ensures
        forall|k: int|
            0 <= k < p.steps@.len() - 1 ==> {
                let c = #[trigger] plan.connectors@[k];
                &&& along(p.mode, c.from) == shifted(
                    along(p.mode, plan.circles@[k].center),
                    CIRCLE_RADIUS as int,
                )
                &&& across(p.mode, c.from) == across(p.mode, plan.circles@[k].center)
                &&& along(p.mode, c.to) == shifted(
                    along(p.mode, plan.circles@[k + 1].center),
                    -(CIRCLE_RADIUS as int),
                )
                &&& across(p.mode, c.to) == across(p.mode, plan.circles@[k + 1].center)
            },
{
    assert(p.labels().len() == p.steps@.len());
}

/// Laying the same steps out vertically instead of horizontally exchanges the
/// axes of every circle and connector, keeps each label's text and weight, and
/// moves each label from above its circle to the right of it.
pub proof fn lemma_orientation(p: ProgressStep, h: DrawPlan, v: DrawPlan)
    requires
        crate::progress_step::plan_matches(p.labels(), p.current_step as int, Mode::Horizontal, h),
        crate::progress_step::plan_matches(p.labels(), p.current_step as int, Mode::Vertical, v),
    ensures
        v.circles@.len() == h.circles@.len(),
        v.labels@.len() == h.labels@.len(),
        v.connectors@.len() == h.connectors@.len(),
        forall|i: int|
            0 <= i < h.circles@.len() ==> (#[trigger] v.circles@[i]).center == swap(
                h.circles@[i].center,
            ) && v.circles@[i].radius == h.circles@[i].radius,
        forall|k: int|
            0 <= k < h.connectors@.len() ==> (#[trigger] v.connectors@[k]).from == swap(
                h.connectors@[k].from,
            ) && v.connectors@[k].to == swap(h.connectors@[k].to),
        forall|i: int|
            0 <= i < h.labels@.len() ==> {
                &&& (#[trigger] v.labels@[i]).text@ == h.labels@[i].text@
                &&& v.labels@[i].bold == h.labels@[i].bold
                &&& h.labels@[i].position.x == h.circles@[i].center.x
                &&& h.labels@[i].position.y == shifted(h.circles@[i].center.y, -LABEL_RISE)
                &&& v.labels@[i].position.x == shifted(v.circles@[i].center.x, LABEL_INDENT as int)
                &&& v.labels@[i].position.y == v.circles@[i].center.y
            },
{
}

} // verus!
