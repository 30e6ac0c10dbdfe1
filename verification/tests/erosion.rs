//! The erosion schedule: queue policy, pipeline lifecycle, dispatch
//! arithmetic and whole-frame behaviour.

use terrain_erosion::dispatch::{group_count, ErosionDispatchNode, EROSION_WORKGROUPS, EROSION_WORK_ITEMS, WORKGROUP_SIZE};
use terrain_erosion::frame::{ErosionSystem, FrameInput, FrameOutcome};
use terrain_erosion::pipeline::{ErosionPipelineManager, PollStatus};
use terrain_erosion::queue::ErosionQueue;

#[test]
fn enqueue_then_select_returns_the_handle() {
    let mut q: ErosionQueue<u64> = ErosionQueue::new();
    assert!(q.is_empty());
    q.enqueue(7);
    assert_eq!(q.select(), Some(7));
    assert!(q.is_empty());
}

#[test]
fn two_enqueues_one_select_serves_the_newest_and_keeps_the_other() {
    let mut q: ErosionQueue<u64> = ErosionQueue::new();
    q.enqueue(1);
    q.enqueue(2);
    assert_eq!(q.select(), Some(2));
    assert_eq!(q.len(), 1);
    assert_eq!(q.select(), Some(1));
    assert_eq!(q.select(), None);
}

#[test]
fn select_on_empty_queue_returns_nothing() {
    let mut q: ErosionQueue<u32> = ErosionQueue::new();
    assert_eq!(q.select(), None);
    assert!(q.is_empty());
}

#[test]
fn pipeline_lifecycle_compiles_once_and_never_regresses() {
    let mut m = ErosionPipelineManager::new();
    assert!(!m.poll_needed());
    assert!(!m.is_ready());
    m.begin_compile();
    assert!(m.poll_needed());
    assert!(!m.resolve_poll(PollStatus::Pending));
    assert!(m.poll_needed());
    assert!(!m.resolve_poll(PollStatus::Compiled));
    assert!(m.is_ready());
    assert!(!m.poll_needed());
    assert!(!m.has_failed());
}

#[test]
fn rejected_compilation_is_fatal_reported_once_and_never_polled_again() {
    let mut m = ErosionPipelineManager::new();
    m.begin_compile();
    assert!(m.resolve_poll(PollStatus::Rejected));
    assert!(m.has_failed());
    assert!(!m.is_ready());
    assert!(!m.poll_needed());
}

#[test]
fn node_latches_ready_and_never_reverts() {
    let mut n = ErosionDispatchNode::new();
    assert_eq!(n.decide(true), None);
    n.update(false);
    assert_eq!(n.decide(true), None);
    n.update(true);
    assert_eq!(n.decide(true), Some(EROSION_WORKGROUPS));
    n.update(false);
    assert_eq!(n.decide(true), Some(EROSION_WORKGROUPS));
}

#[test]
fn no_dispatch_without_a_bind_group() {
    let mut n = ErosionDispatchNode::new();
    n.update(true);
    assert_eq!(n.decide(false), None);
}

#[test]
fn group_count_is_the_ceiling_of_work_over_group_size() {
    assert_eq!(group_count(50_000, 1_024), 49);
    assert_eq!(group_count(1, 1_024), 1);
    assert_eq!(group_count(1_023, 1_024), 1);
    assert_eq!(group_count(1_025, 1_024), 2);
    assert_eq!(group_count(0, 64), 0);
}

#[test]
fn exactly_divisible_work_needs_no_extra_group() {
    assert_eq!(group_count(2_048, 1_024), 2);
    assert_eq!(group_count(1_024, 1_024), 1);
}

#[test]
fn dispatch_constants_are_consistent() {
    assert_eq!(EROSION_WORK_ITEMS, 50_000);
    assert_eq!(WORKGROUP_SIZE, 1_024);
    assert_eq!(EROSION_WORKGROUPS, group_count(EROSION_WORK_ITEMS, WORKGROUP_SIZE));
    assert_eq!(EROSION_WORKGROUPS, 49);
}

fn frame(poll: PollStatus, view: bool) -> FrameInput {
    FrameInput { poll, target_view_ready: view }
}

#[test]
fn failed_compile_never_dispatches_across_many_frames() {
    let mut s: ErosionSystem<u64> = ErosionSystem::new();
    s.pipeline.begin_compile();
    let mut reports: u32 = 0;
    let mut dispatches: u32 = 0;
    for i in 0..10u64 {
        s.queue.enqueue(i);
        let poll = if i == 0 { PollStatus::Rejected } else { PollStatus::Pending };
        let out = s.run_frame(frame(poll, true));
        if out.report_compile_failure {
            reports += 1;
        }
        if out.dispatch.is_some() {
            dispatches += 1;
        }
    }
    assert_eq!(dispatches, 0);
    assert_eq!(reports, 1);
    assert!(s.pipeline.has_failed());
}

#[test]
fn no_dispatch_before_compilation_resolves() {
    let mut s: ErosionSystem<u64> = ErosionSystem::new();
    s.pipeline.begin_compile();
    s.queue.enqueue(5);
    let out = s.run_frame(frame(PollStatus::Pending, true));
    assert!(out.bind_current);
    assert_eq!(out.dispatch, None);
}

#[test]
fn ready_frame_with_target_dispatches_exactly_once() {
    let mut s: ErosionSystem<u64> = ErosionSystem::new();
    s.pipeline.begin_compile();
    s.queue.enqueue(10);
    s.queue.enqueue(11);
    s.queue.enqueue(12);
    let out: FrameOutcome = s.run_frame(frame(PollStatus::Compiled, true));
    assert!(out.bind_current);
    assert_eq!(out.dispatch, Some(EROSION_WORKGROUPS));
    assert_eq!(s.current, Some(12));
    assert_eq!(s.queue.len(), 2);
    let out = s.run_frame(frame(PollStatus::Pending, true));
    assert_eq!(out.dispatch, Some(EROSION_WORKGROUPS));
    assert_eq!(s.current, Some(11));
    assert_eq!(s.queue.len(), 1);
}

#[test]
fn empty_queue_means_no_bind_group_and_no_dispatch() {
    let mut s: ErosionSystem<u32> = ErosionSystem::new();
    s.pipeline.begin_compile();
    let out = s.run_frame(frame(PollStatus::Compiled, true));
    assert!(!out.bind_current);
    assert_eq!(out.dispatch, None);
    assert_eq!(s.current, None);
}

#[test]
fn unresolved_view_keeps_the_target_but_skips_the_frame() {
    let mut s: ErosionSystem<u32> = ErosionSystem::new();
    s.pipeline.begin_compile();
    s.queue.enqueue(3);
    let out = s.run_frame(frame(PollStatus::Compiled, false));
    assert!(!out.bind_current);
    assert_eq!(out.dispatch, None);
    assert_eq!(s.current, Some(3));
}
