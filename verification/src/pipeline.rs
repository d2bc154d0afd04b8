//! The orchestration state machine of one run.
//!
//! The front end performs the action each transition orders — showing a
//! dialog, extracting, writing files, removing the working directory — and
//! reports the outcome as the next event.  The machine itself decides, so
//! that what a run may touch is proved here: cancelling at a prompt orders
//! no filesystem work at all, and a run that finishes has ordered the
//! working directory's removal.

use vstd::prelude::*;

verus! {

/// Where a run stands, from the first prompt to one of the three terminal
/// states.
#[derive(Clone, Copy, Debug, PartialEq, Eq, Structural)]
pub enum Phase {
    Start,
    FolderPrompt,
    ArchiveChosen,
    ImagePrompt,
    ImageChosen,
    Extracting,
    ManifestWritten,
    Overlaying,
    CleaningUp,
    Done,
    Aborted,
    Failed,
}

/// What the front end reports back: that it is ready to go on, what a
/// prompt yielded, or how an ordered step ended.
#[derive(Clone, Copy, Debug, PartialEq, Eq, Structural)]
pub enum RunEvent {
    Advance,
    FileChosen,
    Cancelled,
    StepSucceeded,
    StepFailed,
}

/// What the front end must do next.  `RemoveWorkingTree`, `ExtractArchive`,
/// `WriteManifest` and `OverlayTextures` touch the filesystem; the rest do
/// not.
#[derive(Clone, Copy, Debug, PartialEq, Eq, Structural)]
pub enum RunAction {
    DoNothing,
    PromptForArchive,
    PromptForImage,
    ExtractArchive,
    WriteManifest,
    OverlayTextures,
    RemoveWorkingTree,
    AnnounceDone,
}

/// The action writes to or removes from the filesystem.
pub open spec fn touches_filesystem(a: RunAction) -> bool {
    match a {
        RunAction::ExtractArchive => true,
        RunAction::WriteManifest => true,
        RunAction::OverlayTextures => true,
        RunAction::RemoveWorkingTree => true,
        _ => false,
    }
}

/// The transition table: from a phase, on an event, to the next phase and
/// the action the front end must perform before reporting again.  An event
/// that the phase does not expect changes nothing.
pub open spec fn step_spec(p: Phase, e: RunEvent) -> (Phase, RunAction) {
    match (p, e) {
        (Phase::Start, RunEvent::Advance) => (Phase::FolderPrompt, RunAction::PromptForArchive),
        (Phase::FolderPrompt, RunEvent::FileChosen) => (Phase::ArchiveChosen, RunAction::DoNothing),
        (Phase::FolderPrompt, RunEvent::Cancelled) => (Phase::Aborted, RunAction::DoNothing),
        (Phase::ArchiveChosen, RunEvent::Advance) => (Phase::ImagePrompt, RunAction::PromptForImage),
        (Phase::ImagePrompt, RunEvent::FileChosen) => (Phase::ImageChosen, RunAction::DoNothing),
        (Phase::ImagePrompt, RunEvent::Cancelled) => (Phase::Aborted, RunAction::DoNothing),
        (Phase::ImageChosen, RunEvent::Advance) => (Phase::Extracting, RunAction::ExtractArchive),
        (Phase::Extracting, RunEvent::StepSucceeded) => (Phase::ManifestWritten, RunAction::WriteManifest),
        (Phase::Extracting, RunEvent::StepFailed) => (Phase::Failed, RunAction::RemoveWorkingTree),
        (Phase::ManifestWritten, RunEvent::StepSucceeded) => (Phase::Overlaying, RunAction::OverlayTextures),
        (Phase::ManifestWritten, RunEvent::StepFailed) => (Phase::Failed, RunAction::RemoveWorkingTree),
        (Phase::Overlaying, RunEvent::StepSucceeded) => (Phase::CleaningUp, RunAction::RemoveWorkingTree),
        (Phase::Overlaying, RunEvent::StepFailed) => (Phase::Failed, RunAction::RemoveWorkingTree),
        (Phase::CleaningUp, RunEvent::StepSucceeded) => (Phase::Done, RunAction::AnnounceDone),
        (Phase::CleaningUp, RunEvent::StepFailed) => (Phase::Failed, RunAction::DoNothing),
        _ => (p, RunAction::DoNothing),
    }
}

/// Advances the run by one event.
pub fn step(p: Phase, e: RunEvent) -> (r: (Phase, RunAction))
    ensures
        r == step_spec(p, e),
{
    match (p, e) {
        (Phase::Start, RunEvent::Advance) => (Phase::FolderPrompt, RunAction::PromptForArchive),
        (Phase::FolderPrompt, RunEvent::FileChosen) => (Phase::ArchiveChosen, RunAction::DoNothing),
        (Phase::FolderPrompt, RunEvent::Cancelled) => (Phase::Aborted, RunAction::DoNothing),
        (Phase::ArchiveChosen, RunEvent::Advance) => (Phase::ImagePrompt, RunAction::PromptForImage),
        (Phase::ImagePrompt, RunEvent::FileChosen) => (Phase::ImageChosen, RunAction::DoNothing),
        (Phase::ImagePrompt, RunEvent::Cancelled) => (Phase::Aborted, RunAction::DoNothing),
        (Phase::ImageChosen, RunEvent::Advance) => (Phase::Extracting, RunAction::ExtractArchive),
        (Phase::Extracting, RunEvent::StepSucceeded) => (Phase::ManifestWritten, RunAction::WriteManifest),
        (Phase::Extracting, RunEvent::StepFailed) => (Phase::Failed, RunAction::RemoveWorkingTree),
        (Phase::ManifestWritten, RunEvent::StepSucceeded) => (Phase::Overlaying, RunAction::OverlayTextures),
        (Phase::ManifestWritten, RunEvent::StepFailed) => (Phase::Failed, RunAction::RemoveWorkingTree),
        (Phase::Overlaying, RunEvent::StepSucceeded) => (Phase::CleaningUp, RunAction::RemoveWorkingTree),
        (Phase::Overlaying, RunEvent::StepFailed) => (Phase::Failed, RunAction::RemoveWorkingTree),
        (Phase::CleaningUp, RunEvent::StepSucceeded) => (Phase::Done, RunAction::AnnounceDone),
        (Phase::CleaningUp, RunEvent::StepFailed) => (Phase::Failed, RunAction::DoNothing),
        _ => (p, RunAction::DoNothing),
    }
}

/// The phase reached and the actions ordered after feeding the events, in
/// order, to a run begun at `Start`.
pub open spec fn run_trace(events: Seq<RunEvent>) -> (Phase, Seq<RunAction>)
    decreases events.len(),
{
    if events.len() == 0 {
        (Phase::Start, Seq::empty())
    } else {
        let prior = run_trace(events.drop_last());
        let next = step_spec(prior.0, events.last());
        (next.0, prior.1.push(next.1))
    }
}

/// The phase lies before any filesystem work, or is an abort of such a
/// phase.
pub open spec fn before_filesystem(p: Phase) -> bool {
    match p {
        Phase::Start => true,
        Phase::FolderPrompt => true,
        Phase::ArchiveChosen => true,
        Phase::ImagePrompt => true,
        Phase::ImageChosen => true,
        Phase::Aborted => true,
        _ => false,
    }
}

/// While a run stands before its filesystem work — in particular whenever
/// it was cancelled at a prompt — none of the actions it has ordered
/// touches the filesystem: nothing was created that would need cleaning.
pub proof fn lemma_aborted_touches_nothing(events: Seq<RunEvent>)
    requires
        before_filesystem(run_trace(events).0),
    ensures
        forall|k: int| 0 <= k < run_trace(events).1.len()
            ==> !touches_filesystem(run_trace(events).1[k]),
    decreases events.len(),
{
    if events.len() > 0 {
        let prior = run_trace(events.drop_last());
        lemma_aborted_touches_nothing(events.drop_last());
    }
}

/// A run that reached its successful end ordered the working directory's
/// removal at some point: the working tree does not outlive the run.
pub proof fn lemma_done_removes_working_tree(events: Seq<RunEvent>)
    requires
        run_trace(events).0 == Phase::Done || run_trace(events).0 == Phase::CleaningUp,
    ensures
        exists|k: int| 0 <= k < run_trace(events).1.len()
            && run_trace(events).1[k] == RunAction::RemoveWorkingTree,
    decreases events.len(),
{
    let trace = run_trace(events);
    let prior = run_trace(events.drop_last());
    if prior.0 == trace.0 {
        lemma_done_removes_working_tree(events.drop_last());
        let k = choose|k: int| 0 <= k < prior.1.len()
            && prior.1[k] == RunAction::RemoveWorkingTree;
        assert(trace.1[k] == RunAction::RemoveWorkingTree);
    } else if trace.0 == Phase::CleaningUp {
        assert(trace.1.last() == RunAction::RemoveWorkingTree);
    } else {
        lemma_done_removes_working_tree(events.drop_last());
        let k = choose|k: int| 0 <= k < prior.1.len()
            && prior.1[k] == RunAction::RemoveWorkingTree;
        assert(trace.1[k] == RunAction::RemoveWorkingTree);
    }
}

/// A run failed after its filesystem work began also ordered the working
/// directory's removal on the way to `Failed`, except when the removal
/// itself was the step that failed.
pub proof fn lemma_failure_after_extraction_cleans_up(events: Seq<RunEvent>)
    requires
        run_trace(events).0 == Phase::Failed,
    ensures
        exists|k: int| 0 <= k < run_trace(events).1.len()
            && run_trace(events).1[k] == RunAction::RemoveWorkingTree,
    decreases events.len(),
{
    let trace = run_trace(events);
    let prior = run_trace(events.drop_last());
    if prior.0 == Phase::Failed {
        lemma_failure_after_extraction_cleans_up(events.drop_last());
        let k = choose|k: int| 0 <= k < prior.1.len()
            && prior.1[k] == RunAction::RemoveWorkingTree;
        assert(trace.1[k] == RunAction::RemoveWorkingTree);
    } else if prior.0 == Phase::CleaningUp {
        lemma_done_removes_working_tree(events.drop_last());
        let k = choose|k: int| 0 <= k < prior.1.len()
            && prior.1[k] == RunAction::RemoveWorkingTree;
        assert(trace.1[k] == RunAction::RemoveWorkingTree);
    } else {
        assert(trace.1.last() == RunAction::RemoveWorkingTree);
    }
}

} // verus!
