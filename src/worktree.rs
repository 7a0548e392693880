use vstd::prelude::*;
use crate::cleanup::Cleanup;

verus! {

/// How a run of the worktree publisher ended.
#[derive(Debug, Clone, Copy, PartialEq, Eq, Structural)]
pub enum WorktreeEnd {
    /// The merge was pushed to the mirror remote.
    Published,
    /// The overlay left no staged difference: nothing was merged or pushed.
    NothingToPublish,
    /// The plan was declined; for this tool that is a failure.
    Declined,
    /// A required command failed, with its exit code.
    Failed(Option<i32>),
}

/// The step the worktree publisher waits on: the confirmation, or one command
/// whose outcome is reported back.
#[derive(Debug, Clone, Copy, PartialEq, Eq, Structural)]
pub enum WorktreeStep {
    Confirm,
    FetchMirror,
    FetchPrimary,
    RemoveStaleWorktree,
    RemoveStaleDir,
    AddWorktree,
    CreateContentBranch,
    RestoreFromPrimary,
    CleanUntracked,
    StageAll,
    CheckStagedDiff,
    Commit,
    SwitchToStaging,
    Merge,
    Push,
    Done(WorktreeEnd),
}

/// What happened at the pending step.
#[derive(Debug, Clone, Copy, PartialEq, Eq, Structural)]
pub enum Event {
    Accepted,
    Declined,
    /// The command ran and exited with this code (`None`: it could not be
    /// started).
    Exited(Option<i32>),
}

pub open spec fn succeeded(ev: Event) -> bool {
    ev == Event::Exited(Some(0i32))
}

/// The step after a command that must succeed.
pub open spec fn required(code: Option<i32>, next: WorktreeStep) -> WorktreeStep {
    if code == Some(0i32) {
        next
    } else {
        WorktreeStep::Done(WorktreeEnd::Failed(code))
    }
}

/// The transition of the worktree publisher. An event that does not answer
/// the pending step leaves it pending.
pub open spec fn next_step(step: WorktreeStep, ev: Event) -> WorktreeStep {
    match step {
        WorktreeStep::Done(_) => step,
        WorktreeStep::Confirm => match ev {
            Event::Accepted => WorktreeStep::FetchMirror,
            Event::Declined => WorktreeStep::Done(WorktreeEnd::Declined),
            Event::Exited(_) => step,
        },
        _ => match ev {
            Event::Exited(code) => match step {
                WorktreeStep::FetchMirror => required(code, WorktreeStep::FetchPrimary),
                WorktreeStep::FetchPrimary => required(code, WorktreeStep::RemoveStaleWorktree),
                WorktreeStep::RemoveStaleWorktree => WorktreeStep::RemoveStaleDir,
                WorktreeStep::RemoveStaleDir => WorktreeStep::AddWorktree,
                WorktreeStep::AddWorktree => required(code, WorktreeStep::CreateContentBranch),
                WorktreeStep::CreateContentBranch => required(code, WorktreeStep::RestoreFromPrimary),
                WorktreeStep::RestoreFromPrimary => required(code, WorktreeStep::CleanUntracked),
                WorktreeStep::CleanUntracked => required(code, WorktreeStep::StageAll),
                WorktreeStep::StageAll => required(code, WorktreeStep::CheckStagedDiff),
                WorktreeStep::CheckStagedDiff => match code {
                    Some(0i32) => WorktreeStep::Done(WorktreeEnd::NothingToPublish),
                    Some(_) => WorktreeStep::Commit,
                    None => WorktreeStep::Done(WorktreeEnd::Failed(None)),
                },
                WorktreeStep::Commit => required(code, WorktreeStep::SwitchToStaging),
                WorktreeStep::SwitchToStaging => required(code, WorktreeStep::Merge),
                WorktreeStep::Merge => required(code, WorktreeStep::Push),
                _ => required(code, WorktreeStep::Done(WorktreeEnd::Published)),
            },
            _ => step,
        },
    }
}

/// Steps that run once the temporary worktree exists.
pub open spec fn inside_worktree(step: WorktreeStep) -> bool {
    match step {
        WorktreeStep::CreateContentBranch | WorktreeStep::RestoreFromPrimary
        | WorktreeStep::CleanUntracked | WorktreeStep::StageAll | WorktreeStep::CheckStagedDiff
        | WorktreeStep::Commit | WorktreeStep::SwitchToStaging | WorktreeStep::Merge
        | WorktreeStep::Push => true,
        _ => false,
    }
}

/// Publishes the primary remote's main content onto the mirror remote's main
/// through a temporary worktree, one step at a time.
#[derive(Debug)]
pub struct WorktreePublisher {
    pub step: WorktreeStep,
    pub cleanup: Cleanup,
}

impl WorktreePublisher {
    /// Once the worktree exists, its removal stays due.
    pub open spec fn wf(&self) -> bool {
        inside_worktree(self.step) ==> self.cleanup.worktree_created
    }

    pub fn new() -> (r: Self)
        ensures
            r.step == WorktreeStep::Confirm,
            !r.cleanup.worktree_created,
            r.wf(),
    {
        WorktreePublisher { step: WorktreeStep::Confirm, cleanup: Cleanup::new() }
    }

    pub fn is_done(&self) -> (r: bool)
        ensures
            r == (self.step is Done),
    {
        match self.step {
            WorktreeStep::Done(_) => true,
            _ => false,
        }
    }

    /// Moves past the pending step given what happened there. The cleanup
    /// guard is armed as soon as the worktree has been added.
    pub fn advance(&mut self, ev: Event)
        requires
            old(self).wf(),
        ensures
            final(self).step == next_step(old(self).step, ev),
            final(self).cleanup.worktree_created == (old(self).cleanup.worktree_created || (old(
                self,
            ).step == WorktreeStep::AddWorktree && succeeded(ev))),
            final(self).wf(),
    {
        let ok = match ev {
            Event::Exited(Some(0i32)) => true,
            _ => false,
        };
        let exited = match ev {
            Event::Exited(_) => true,
            _ => false,
        };
        let code = match ev {
            Event::Exited(c) => c,
            _ => None,
        };
        let fail = WorktreeStep::Done(WorktreeEnd::Failed(code));
        let next = match self.step {
            WorktreeStep::Done(_) => self.step,
            WorktreeStep::Confirm => match ev {
                Event::Accepted => WorktreeStep::FetchMirror,
                Event::Declined => WorktreeStep::Done(WorktreeEnd::Declined),
                Event::Exited(_) => self.step,
            },
            _ => if !exited {
                self.step
            } else {
                match self.step {
                    WorktreeStep::RemoveStaleWorktree => WorktreeStep::RemoveStaleDir,
                    WorktreeStep::RemoveStaleDir => WorktreeStep::AddWorktree,
                    WorktreeStep::CheckStagedDiff => match code {
                        Some(0i32) => WorktreeStep::Done(WorktreeEnd::NothingToPublish),
                        Some(_) => WorktreeStep::Commit,
                        None => WorktreeStep::Done(WorktreeEnd::Failed(None)),
                    },
                    _ => if !ok {
                        fail
                    } else {
                        match self.step {
                            WorktreeStep::FetchMirror => WorktreeStep::FetchPrimary,
                            WorktreeStep::FetchPrimary => WorktreeStep::RemoveStaleWorktree,
                            WorktreeStep::AddWorktree => WorktreeStep::CreateContentBranch,
                            WorktreeStep::CreateContentBranch => WorktreeStep::RestoreFromPrimary,
                            WorktreeStep::RestoreFromPrimary => WorktreeStep::CleanUntracked,
                            WorktreeStep::CleanUntracked => WorktreeStep::StageAll,
                            WorktreeStep::StageAll => WorktreeStep::CheckStagedDiff,
                            WorktreeStep::Commit => WorktreeStep::SwitchToStaging,
                            WorktreeStep::SwitchToStaging => WorktreeStep::Merge,
                            WorktreeStep::Merge => WorktreeStep::Push,
                            _ => WorktreeStep::Done(WorktreeEnd::Published),
                        }
                    },
                }
            },
        };
        if ok && self.step == WorktreeStep::AddWorktree {
            self.cleanup.mark_worktree();
        }
        self.step = next;
    }
}

/// When the overlay leaves no staged difference the run ends there, nothing
/// is merged or pushed afterwards, and the worktree's removal is due.
pub proof fn lemma_no_difference_ends_run(p: WorktreePublisher, ev: Event)
    requires
        p.wf(),
        p.step == WorktreeStep::CheckStagedDiff,
        ev == Event::Exited(Some(0i32)),
    ensures
        next_step(p.step, ev) == WorktreeStep::Done(WorktreeEnd::NothingToPublish),
        forall|later: Event|
            next_step(next_step(p.step, ev), later) == WorktreeStep::Done(
                WorktreeEnd::NothingToPublish,
            ),
        p.cleanup.worktree_created,
{
}

/// A failed merge ends the run as a failure with the worktree's removal due.
pub proof fn lemma_merge_failure_keeps_cleanup(p: WorktreePublisher, code: Option<i32>)
    requires
        p.wf(),
        p.step == WorktreeStep::Merge,
        code != Some(0i32),
    ensures
        next_step(p.step, Event::Exited(code)) == WorktreeStep::Done(WorktreeEnd::Failed(code)),
        p.cleanup.worktree_created,
{
}

} // verus!
