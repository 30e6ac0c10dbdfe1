//! The compute pipeline's compilation lifecycle.
//!
//! The erosion compute program is submitted for asynchronous compilation
//! exactly once at startup and polled once per frame until it resolves.  The
//! manager owns the lifecycle state and exposes it only through queries; the
//! state never regresses, and a rejected program is fatal: it is reported
//! once and never polled again.

use vstd::prelude::*;

verus! {

/// Lifecycle of the compute program on the graphics device.
#[derive(Clone, Copy, Debug, PartialEq, Eq, Structural)]
pub enum PipelineState {
    /// Compilation has not been submitted yet.
    Uninitialized,
    /// Compilation was submitted and has not resolved yet.
    Compiling,
    /// The program compiled; dispatches may be issued.
    Ready,
    /// The device rejected the program; the erosion subsystem is permanently
    /// disabled (a restart is required).
    Failed,
}

/// What one poll of the device's pipeline cache reported.
#[derive(Clone, Copy, Debug, PartialEq, Eq, Structural)]
pub enum PollStatus {
    /// Compilation has not resolved yet.
    Pending,
    /// The program compiled successfully.
    Compiled,
    /// The device rejected the program.
    Rejected,
}

/// How one poll advances the lifecycle: only a compiling pipeline moves, to
/// ready or failed as the poll reports; every other state is final (ready
/// and failed never regress) or untouched.
pub open spec fn poll_transition(s: PipelineState, poll: PollStatus) -> PipelineState {
    if s is Compiling {
        match poll {
            PollStatus::Pending => PipelineState::Compiling,
            PollStatus::Compiled => PipelineState::Ready,
            PollStatus::Rejected => PipelineState::Failed,
        }
    } else {
        s
    }
}

/// Owns the compute pipeline's lifecycle state; nothing outside the manager
/// mutates it.
pub struct ErosionPipelineManager {
    state: PipelineState,
}

impl ErosionPipelineManager {
    /// The lifecycle state the manager holds.
    pub closed spec fn state_spec(self) -> PipelineState {
        self.state
    }

    /// A manager for a pipeline whose compilation has not been submitted.
    pub fn new() -> (m: Self)
        ensures
            m.state_spec() is Uninitialized,
    {
        ErosionPipelineManager { state: PipelineState::Uninitialized }
    }

    /// Records that the compute program was submitted for asynchronous
    /// compilation.  To be called exactly once, at startup, when the caller
    /// queues the program on the device.
    pub fn begin_compile(&mut self)
        requires
            old(self).state_spec() is Uninitialized,
        ensures
            final(self).state_spec() is Compiling,
    {
        self.state = PipelineState::Compiling;
    }

    /// Whether the caller should poll the device this frame: only while the
    /// pipeline is compiling — never again once it resolved, in particular
    /// never for a known-failed program.
    pub fn poll_needed(&self) -> (b: bool)
        ensures
            b == (self.state_spec() is Compiling),
    {
        match self.state {
            PipelineState::Compiling => true,
            _ => false,
        }
    }

    /// Applies what a poll of the device reported.  Returns whether a fatal
    /// compilation failure was detected just now — true exactly once per
    /// failed program, so the caller reports it once, not per frame.
    pub fn resolve_poll(&mut self, poll: PollStatus) -> (fatal: bool)
        requires
            old(self).state_spec() is Compiling,
        ensures
            final(self).state_spec() == poll_transition(old(self).state_spec(), poll),
            fatal == (poll is Rejected),
    {
        match poll {
            PollStatus::Pending => false,
            PollStatus::Compiled => {
                self.state = PipelineState::Ready;
                false
            },
            PollStatus::Rejected => {
                self.state = PipelineState::Failed;
                true
            },
        }
    }

    /// Whether the program has compiled and dispatches may be issued.
    pub fn is_ready(&self) -> (b: bool)
        ensures
            b == (self.state_spec() is Ready),
    {
        match self.state {
            PipelineState::Ready => true,
            _ => false,
        }
    }

    /// Whether the device rejected the program.
    pub fn has_failed(&self) -> (b: bool)
        ensures
            b == (self.state_spec() is Failed),
    {
        match self.state {
            PipelineState::Failed => true,
            _ => false,
        }
    }
}

/// Law: the lifecycle never regresses under polling — a ready pipeline stays
/// ready, a failed pipeline stays failed, and no poll returns the lifecycle
/// to an earlier stage.
pub proof fn lemma_lifecycle_never_regresses(s: PipelineState, poll: PollStatus)
    ensures
        s is Ready ==> poll_transition(s, poll) is Ready,
        s is Failed ==> poll_transition(s, poll) is Failed,
        !(poll_transition(s, poll) is Uninitialized) || s is Uninitialized,
{
}

} // verus!
