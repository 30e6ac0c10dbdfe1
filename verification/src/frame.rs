//! The per-frame erosion schedule.
//!
//! Two logical stages run once per rendered frame, in fixed order with a
//! synchronization boundary between them.  The simulation stage selects at
//! most one queued handle as the frame's erosion target.  The
//! render-preparation stage — observing the selection the simulation stage
//! finalized — polls the compiling pipeline if a poll is due, refreshes the
//! dispatch node's latch, asks for a fresh bind group when a target is
//! selected and its GPU-side view resolved (bind groups never persist
//! across frames), and decides the dispatch.  Nothing here blocks: the only
//! genuine asynchrony is pipeline compilation, which is polled, and a
//! target whose view did not resolve simply gets no bind group this frame.

use vstd::prelude::*;

verus! {

use crate::dispatch::{ErosionDispatchNode, EROSION_WORKGROUPS};
use crate::pipeline::{ErosionPipelineManager, PipelineState, PollStatus, poll_transition};
use crate::queue::{ErosionQueue, select_spec};

/// What the outside world reports into one frame: what the device's
/// pipeline cache answered (consulted only while the pipeline compiles),
/// and whether the selected target's GPU-side texture view resolved.
#[derive(Clone, Copy, Debug, PartialEq, Eq, Structural)]
pub struct FrameInput {
    /// The pipeline cache's answer this frame.
    pub poll: PollStatus,
    /// Whether the GPU-side view of the frame's target is resolvable.
    pub target_view_ready: bool,
}

/// What one frame asks the caller to perform.
#[derive(Clone, Copy, Debug, PartialEq, Eq)]
pub struct FrameOutcome {
    /// Build a fresh bind group binding the current target's texture view
    /// to the compute slot for this frame.
    pub bind_current: bool,
    /// Issue one compute dispatch of this many workgroups — or none.
    pub dispatch: Option<u32>,
    /// Report the fatal compilation failure, once, not per frame.
    pub report_compile_failure: bool,
}

/// A snapshot of the erosion subsystem, for stating what frames do.
#[verifier::ext_equal]
pub struct ErosionModel<H> {
    /// Handles awaiting erosion, oldest first.
    pub queue: Seq<H>,
    /// The frame's erosion target; none when the queue was empty at
    /// selection time.
    pub current: Option<H>,
    /// The compute pipeline's lifecycle state.
    pub pipeline: PipelineState,
    /// The dispatch node's latch.
    pub node_ready: bool,
}

/// What one frame does to the subsystem.
pub open spec fn frame_model_spec<H>(m: ErosionModel<H>, inp: FrameInput) -> ErosionModel<H> {
    ErosionModel {
        queue: select_spec(m.queue).0,
        current: select_spec(m.queue).1,
        pipeline: poll_transition(m.pipeline, inp.poll),
        node_ready: m.node_ready || poll_transition(m.pipeline, inp.poll) is Ready,
    }
}

/// What one frame asks of the caller: a bind group exactly when a target
/// was selected and its view resolved; one dispatch of the fixed workgroup
/// count exactly when, additionally, the node is ready; a failure report
/// exactly when this frame's poll rejected the compiling program.
pub open spec fn frame_outcome_spec<H>(m: ErosionModel<H>, inp: FrameInput) -> FrameOutcome {
    let bind = select_spec(m.queue).1 is Some && inp.target_view_ready;
    let ready = m.node_ready || poll_transition(m.pipeline, inp.poll) is Ready;
    FrameOutcome {
        bind_current: bind,
        dispatch: if ready && bind {
            Some(EROSION_WORKGROUPS)
        } else {
            None
        },
        report_compile_failure: m.pipeline is Compiling && inp.poll is Rejected,
    }
}

/// The erosion subsystem: request queue, current target, pipeline manager
/// and dispatch node, advanced one frame at a time.
pub struct ErosionSystem<H> {
    /// Handles awaiting erosion.
    pub queue: ErosionQueue<H>,
    /// The frame's erosion target, finalized by the simulation stage.
    pub current: Option<H>,
    /// The compute pipeline's lifecycle.
    pub pipeline: ErosionPipelineManager,
    /// The dispatch node.
    pub node: ErosionDispatchNode,
}

impl<H> ErosionSystem<H> {
    /// The subsystem's snapshot.
    pub open spec fn model(self) -> ErosionModel<H> {
        ErosionModel {
            queue: self.queue.0@,
            current: self.current,
            pipeline: self.pipeline.state_spec(),
            node_ready: self.node.ready_spec(),
        }
    }

    /// A fresh subsystem: empty queue, no target, unsubmitted pipeline,
    /// not-ready node.
    pub fn new() -> (s: Self)
        ensures
            s.model().queue == Seq::<H>::empty(),
            s.model().current is None,
            s.model().pipeline is Uninitialized,
            !s.model().node_ready,
    {
        ErosionSystem {
            queue: ErosionQueue::new(),
            current: None,
            pipeline: ErosionPipelineManager::new(),
            node: ErosionDispatchNode::new(),
        }
    }

    /// Runs one frame: the simulation stage's selection, then the render
    /// stage's poll, latch refresh and decisions.  The pipeline must have
    /// been submitted for compilation at startup, before the first frame.
    pub fn run_frame(&mut self, inp: FrameInput) -> (out: FrameOutcome)
        requires
            !(old(self).model().pipeline is Uninitialized),
        ensures
            final(self).model() == frame_model_spec(old(self).model(), inp),
            out == frame_outcome_spec(old(self).model(), inp),
    {
        let picked = self.queue.select();
        self.current = picked;
        let fatal = if self.pipeline.poll_needed() {
            self.pipeline.resolve_poll(inp.poll)
        } else {
            false
        };
        let pipeline_ready = self.pipeline.is_ready();
        self.node.update(pipeline_ready);
        let bind_current = self.current.is_some() && inp.target_view_ready;
        let dispatch = self.node.decide(bind_current);
        FrameOutcome { bind_current, dispatch, report_compile_failure: fatal }
    }
}

/// Well-formedness across frames: the dispatch node reports ready only once
/// the pipeline has compiled.
pub open spec fn model_wf<H>(m: ErosionModel<H>) -> bool {
    m.node_ready ==> m.pipeline is Ready
}

/// Frames preserve well-formedness: the node's latch only ever follows a
/// pipeline that reached ready, and ready never regresses.
pub proof fn lemma_frame_preserves_wf<H>(m: ErosionModel<H>, inp: FrameInput)
    requires
        model_wf(m),
    ensures
        model_wf(frame_model_spec(m, inp)),
{
}

/// Law: no dispatch is ever issued while the pipeline is not ready — none
/// before compilation resolves, and none after a failure.
pub proof fn lemma_no_dispatch_while_unready<H>(m: ErosionModel<H>, inp: FrameInput)
    requires
        model_wf(m),
        !(poll_transition(m.pipeline, inp.poll) is Ready),
    ensures
        frame_outcome_spec(m, inp).dispatch is None,
{
}

/// A run of consecutive frames: the snapshot after all of them, and how
/// many dispatches were issued along the way.
pub open spec fn run_frames<H>(m: ErosionModel<H>, inputs: Seq<FrameInput>) -> (
    ErosionModel<H>,
    nat,
)
    decreases inputs.len(),
{
    if inputs.len() == 0 {
        (m, 0nat)
    } else {
        let here: nat = if frame_outcome_spec(m, inputs[0]).dispatch is Some {
            1nat
        } else {
            0nat
        };
        let rest = run_frames(frame_model_spec(m, inputs[0]), inputs.drop_first());
        (rest.0, (here + rest.1) as nat)
    }
}

/// Law: a compilation that never succeeds never dispatches.  From any
/// well-formed state whose pipeline has failed — or is still compiling
/// while no frame's poll ever reports success — a run of any length issues
/// zero dispatches.
pub proof fn lemma_failed_compile_never_dispatches<H>(m: ErosionModel<H>, inputs: Seq<FrameInput>)
    requires
        model_wf(m),
        m.pipeline is Failed || (m.pipeline is Compiling && forall|i: int|
            0 <= i < inputs.len() ==> !(inputs[i].poll is Compiled)),
    ensures
        run_frames(m, inputs).1 == 0,
    decreases inputs.len(),
{
    if inputs.len() > 0 {
        let stepped = frame_model_spec(m, inputs[0]);
        lemma_no_dispatch_while_unready(m, inputs[0]);
        lemma_frame_preserves_wf(m, inputs[0]);
        if m.pipeline is Compiling {
            assert forall|i: int|
                0 <= i < inputs.drop_first().len() implies !(inputs.drop_first()[i].poll
                is Compiled) by {
                assert(inputs.drop_first()[i] == inputs[i + 1]);
            }
        }
        lemma_failed_compile_never_dispatches(stepped, inputs.drop_first());
    }
}

/// Law: at most one dispatch per frame — over any run, from any state, the
/// dispatch count never exceeds the frame count, however many targets are
/// nominally available.
pub proof fn lemma_at_most_one_dispatch_per_frame<H>(m: ErosionModel<H>, inputs: Seq<FrameInput>)
    ensures
        run_frames(m, inputs).1 <= inputs.len(),
    decreases inputs.len(),
{
    if inputs.len() > 0 {
        lemma_at_most_one_dispatch_per_frame(frame_model_spec(m, inputs[0]), inputs.drop_first());
    }
}

/// Law: one frame consumes exactly one of the queued targets when any are
/// available — the newest — and leaves the others queued for later frames.
pub proof fn lemma_frame_consumes_one_target<H>(m: ErosionModel<H>, inp: FrameInput)
    requires
        m.queue.len() > 0,
    ensures
        frame_model_spec(m, inp).queue.len() == m.queue.len() - 1,
        frame_model_spec(m, inp).current == Some(m.queue.last()),
{
}

} // verus!
