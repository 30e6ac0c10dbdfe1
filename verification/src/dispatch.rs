//! The per-frame dispatch node and its workgroup arithmetic.
//!
//! The node mirrors the pipeline's compiled state as a latch checked once
//! per frame: not ready means no-op; ready with no bind group for the frame
//! means no-op; ready with a bind group means exactly one compute dispatch
//! of a fixed workgroup count against the bound texture.

use vstd::prelude::*;

verus! {

/// Total number of elementary work items one erosion dispatch must cover.
pub const EROSION_WORK_ITEMS: u32 = 50000;

/// Invocations per GPU workgroup; must equal the compute program's
/// compile-time workgroup size.
pub const WORKGROUP_SIZE: u32 = 1024;

/// Ceiling division: how many `group`-sized groups cover `total` items.
pub open spec fn div_ceil(total: int, group: int) -> int {
    (total + group - 1) / group
}

/// Workgroup count along one axis so that `group_size`-wide groups cover
/// `total` work items.
pub fn group_count(total: u32, group_size: u32) -> (n: u32)
    requires
        group_size > 0,
    ensures
        n == div_ceil(total as int, group_size as int),
{
    if total == 0 {
        assert(div_ceil(0, group_size as int) == 0) by (nonlinear_arith)
            requires group_size > 0;
        0
    } else {
        let q = (total - 1) / group_size;
        assert(q + 1 == div_ceil(total as int, group_size as int) && q < total) by (nonlinear_arith)
            requires q == (total - 1) as int / group_size as int && total >= 1 && group_size > 0;
        q + 1
    }
}

/// An exact multiple of the group size needs no extra group: when `group`
/// divides `total`, the ceiling quotient equals the exact quotient.
pub proof fn lemma_exact_division_no_extra_group(total: int, group: int)
    requires
        group > 0,
        total >= 0,
        total % group == 0,
    ensures
        div_ceil(total, group) == total / group,
{
    assert((total + group - 1) / group == total / group) by (nonlinear_arith)
        requires group > 0 && total >= 0 && total % group == 0;
}

/// The dispatched groups cover all work items, and dropping one group would
/// leave some item uncovered: `div_ceil` is the least sufficient group count.
pub proof fn lemma_group_count_tight(total: int, group: int)
    requires
        group > 0,
        total >= 1,
    ensures
        div_ceil(total, group) * group >= total,
        (div_ceil(total, group) - 1) * group < total,
{
    assert((total + group - 1) / group * group >= total
        && ((total + group - 1) / group - 1) * group < total) by (nonlinear_arith)
        requires group > 0 && total >= 1;
}

/// Workgroups per erosion dispatch: the fixed total work divided into
/// fixed-size groups, rounded up so every work item is covered.
pub const EROSION_WORKGROUPS: u32 = (EROSION_WORK_ITEMS + WORKGROUP_SIZE - 1) / WORKGROUP_SIZE;

/// The dispatch constant is the ceiling of total work over group size.
pub proof fn lemma_workgroups_formula()
    ensures
        EROSION_WORKGROUPS == div_ceil(EROSION_WORK_ITEMS as int, WORKGROUP_SIZE as int),
{
}

/// The per-frame scheduling unit: a latch over the pipeline's compiled
/// state, and the dispatch decision made from it.
pub struct ErosionDispatchNode {
    ready: bool,
}

impl ErosionDispatchNode {
    /// Whether the node has observed a ready pipeline: false is the node's
    /// not-ready state, true its ready state.
    pub closed spec fn ready_spec(self) -> bool {
        self.ready
    }

    /// A node that has not observed a ready pipeline yet.
    pub fn new() -> (n: Self)
        ensures
            !n.ready_spec(),
    {
        ErosionDispatchNode { ready: false }
    }

    /// Once-per-frame refresh from the pipeline's compiled state.  The
    /// readiness latches: once ready, the node never reverts.
    pub fn update(&mut self, pipeline_ready: bool)
        ensures
            final(self).ready_spec() == (old(self).ready_spec() || pipeline_ready),
    {
        if !self.ready {
            self.ready = pipeline_ready;
        }
    }

    /// The per-frame dispatch decision: the fixed workgroup count exactly
    /// when the node is ready and this frame's bind group exists, and no
    /// dispatch otherwise — never while not ready, never without a target,
    /// and at most one per frame.
    pub fn decide(&self, bind_group_exists: bool) -> (d: Option<u32>)
        ensures
            d is Some <==> (self.ready_spec() && bind_group_exists),
            d matches Some(groups) ==> groups == EROSION_WORKGROUPS,
    {
        if self.ready && bind_group_exists {
            Some(EROSION_WORKGROUPS)
        } else {
            None
        }
    }
}

} // verus!
