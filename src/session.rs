use crate::feeder::Feeder;
use crate::state::{Lifecycle, LifecycleState};
use vstd::prelude::*;

verus! {

/// One step of tearing a running graph down, in the order they must happen.
#[derive(Clone, Copy, Debug, PartialEq, Eq, Structural)]
pub enum TeardownStep {
    /// Unregister the bus watch, so no handler runs against the graph.
    RemoveWatch,
    /// Cancel the feeder's scheduled generation task.
    CancelTask(u64),
    /// Wait for a sample handler that may still be running.
    AwaitSamples,
    /// Move the graph to Unset and release its nodes.
    Release,
}

/// The teardown steps for a graph with or without a bus watch, whose feeder
/// has the given task scheduled.
pub open spec fn teardown_steps(watching: bool, task: Option<u64>) -> Seq<TeardownStep> {
    (if watching {
        seq![TeardownStep::RemoveWatch]
    } else {
        Seq::empty()
    }) + (match task {
        Some(t) => seq![TeardownStep::CancelTask(t)],
        None => Seq::empty(),
    }) + seq![TeardownStep::AwaitSamples, TeardownStep::Release]
}

/// Tears a graph down: stops the feeder, moves the lifecycle to Unset, and
/// returns the steps the caller performs with the framework, in order: the
/// bus watch goes first, then the feeding task, then in-flight samples are
/// awaited, and only then are the nodes released.
pub fn teardown(life: &mut Lifecycle, feeder: &mut Feeder, watching: bool) -> (r: Vec<
    TeardownStep,
>)
    requires
        old(life).wf(),
        old(feeder).wf(),
    ensures
        r@ == teardown_steps(watching, old(feeder)@.task),
        final(feeder).wf(),
        final(feeder)@ == old(feeder)@.enough_data(),
        final(life).wf(),
        final(life).spec_current() == LifecycleState::Unset,
        final(life).spec_target() == LifecycleState::Unset,
{
    let mut steps: Vec<TeardownStep> = Vec::new();
    if watching {
        steps.push(TeardownStep::RemoveWatch);
    }
    let cancelled = feeder.on_enough_data();
    if let Some(t) = cancelled {
        steps.push(TeardownStep::CancelTask(t));
    }
    steps.push(TeardownStep::AwaitSamples);
    steps.push(TeardownStep::Release);
    let _ = life.request(LifecycleState::Unset);
    assert(steps@ =~= teardown_steps(watching, old(feeder)@.task));
    steps
}

} // verus!
