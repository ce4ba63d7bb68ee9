//! The common worker contract of the pipeline stages.
//!
//! Every stage spawns a worker that loops until the global stop flag is set
//! or a fatal error occurs, and sets the flag itself on exit so that its
//! peers shut down.  The thread, the flag's atomics and the logging live
//! with the embedding program; the decisions are functions here.

use vstd::prelude::*;

verus! {

/// Where a stage worker stands.
#[derive(Clone, Copy, Debug, PartialEq, Eq, Structural)]
pub enum StageState {
    /// Setting up its resources.
    Initializing,
    /// Looping over artifacts.
    Running,
    /// Leaving the loop; the stop flag is about to be emitted.
    Draining,
    /// The worker has exited.
    Stopped,
}

/// What a stage worker observed during one iteration.
#[derive(Clone, Copy, Debug, PartialEq, Eq, Structural)]
pub enum StageEvent {
    /// Setup finished successfully.
    SetupDone,
    /// Setup failed.
    SetupFailed,
    /// The global stop flag was seen set at the loop head.
    StopObserved,
    /// The upstream buffer reported shutdown instead of an artifact.
    UpstreamClosed,
    /// An unrecoverable stage error.
    FatalError,
    /// One artifact was processed; keep looping.
    WorkDone,
    /// The stop flag was emitted to the peers.
    StopEmitted,
}

/// The stage transition function of the worker contract.
pub open spec fn spec_stage_step(s: StageState, e: StageEvent) -> StageState {
    match (s, e) {
        (StageState::Initializing, StageEvent::SetupDone) => StageState::Running,
        (StageState::Initializing, StageEvent::SetupFailed) => StageState::Draining,
        (StageState::Initializing, StageEvent::StopObserved) => StageState::Draining,
        (StageState::Running, StageEvent::StopObserved) => StageState::Draining,
        (StageState::Running, StageEvent::UpstreamClosed) => StageState::Draining,
        (StageState::Running, StageEvent::FatalError) => StageState::Draining,
        (StageState::Running, StageEvent::WorkDone) => StageState::Running,
        (StageState::Draining, StageEvent::StopEmitted) => StageState::Stopped,
        _ => s,
    }
}

/// Whether the transition is the one that sets the global stop flag.
pub open spec fn spec_emits_stop(s: StageState, e: StageEvent) -> bool {
    s == StageState::Draining && e == StageEvent::StopEmitted
}

/// Advance a stage worker by one observation.
pub fn stage_step(s: StageState, e: StageEvent) -> (r: StageState)
    ensures
        r == spec_stage_step(s, e),
{
    match (s, e) {
        (StageState::Initializing, StageEvent::SetupDone) => StageState::Running,
        (StageState::Initializing, StageEvent::SetupFailed) => StageState::Draining,
        (StageState::Initializing, StageEvent::StopObserved) => StageState::Draining,
        (StageState::Running, StageEvent::StopObserved) => StageState::Draining,
        (StageState::Running, StageEvent::UpstreamClosed) => StageState::Draining,
        (StageState::Running, StageEvent::FatalError) => StageState::Draining,
        (StageState::Running, StageEvent::WorkDone) => StageState::Running,
        (StageState::Draining, StageEvent::StopEmitted) => StageState::Stopped,
        _ => s,
    }
}

/// Shutdown reachability: a worker that observes the stop flag leaves its
/// working states at once — after the very next poll it is neither setting
/// up nor running, and one further step later it has stopped.
pub proof fn lemma_stop_observed_exits(s: StageState)
    ensures
        spec_stage_step(s, StageEvent::StopObserved) != StageState::Running,
        spec_stage_step(s, StageEvent::StopObserved) != StageState::Initializing,
        s == StageState::Running || s == StageState::Initializing ==> spec_stage_step(
            spec_stage_step(s, StageEvent::StopObserved),
            StageEvent::StopEmitted,
        ) == StageState::Stopped,
{
}

/// A stopped worker stays stopped.
pub proof fn lemma_stopped_is_final(e: StageEvent)
    ensures
        spec_stage_step(StageState::Stopped, e) == StageState::Stopped,
{
}

/// The moving-average window of the stages' frame counters: every tenth
/// processed artifact completes a window and resets the count.
pub struct FpsWindow {
    count: u32,
}

impl FpsWindow {
    /// Frames counted in the current window.
    pub closed spec fn spec_count(&self) -> int {
        self.count as int
    }

    /// The count stays below the window size.
    pub open spec fn wf(&self) -> bool {
        0 <= self.spec_count() < 10
    }

    /// An empty window.
    pub fn new() -> (r: FpsWindow)
        ensures
            r.wf(),
            r.spec_count() == 0,
    {
        FpsWindow { count: 0 }
    }

    /// Count one processed frame; reports whether this frame completed a
    /// ten-frame window, in which case the count starts over.
    pub fn tick(&mut self) -> (complete: bool)
        requires
            old(self).wf(),
        ensures
            final(self).wf(),
            complete == (old(self).spec_count() == 9),
            final(self).spec_count() == if complete {
                0int
            } else {
                old(self).spec_count() + 1
            },
    {
        if self.count == 9 {
            self.count = 0;
            true
        } else {
            self.count = self.count + 1;
            false
        }
    }
}

} // verus!
