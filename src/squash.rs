use vstd::prelude::*;
use crate::command::{is_unrelated_failure, merge_base_outcome, remote_branch_presence};
use crate::commands::{tracking, Settings};
use vstd::string::*;
use crate::counts::{ahead_behind, parse_ahead_behind};
use crate::text::{trim, trimmed};

verus! {

/// How a run of the squash publisher ended.
#[derive(Debug, Clone, Copy, PartialEq, Eq, Structural)]
pub enum SquashEnd {
    /// The squashed main branch was force-pushed to the mirror remote.
    Published,
    /// The squash left no staged difference: nothing was committed or pushed.
    NothingToPublish,
    /// A confirmation was declined: a successful no-op.
    Aborted,
    /// A required command failed, with its exit code.
    Failed(Option<i32>),
}

/// The step the squash publisher waits on.
#[derive(Debug, Clone, Copy, PartialEq, Eq, Structural)]
pub enum SquashStep {
    Confirm,
    SwitchMain,
    PullFastForward,
    CountDivergence,
    ConfirmReset,
    ResetToRemote,
    CheckMirrorBranch,
    FetchMirror,
    FindMergeBase,
    ConfirmOverwrite,
    SoftResetToBase,
    StageForSquash,
    CheckSquashDiff,
    CommitSquash,
    StageForRoot,
    WriteTree,
    CommitTree,
    ResetToRoot,
    ForcePush,
    Done(SquashEnd),
}

/// What a command run reported.
#[derive(Debug)]
pub struct RunResult {
    /// `None` when the command could not be started.
    pub exit_code: Option<i32>,
    pub stdout: String,
    pub stderr: String,
}

/// What happened at the pending step.
#[derive(Debug)]
pub enum SquashEvent {
    Accepted,
    Declined,
    Ran(RunResult),
}

pub ghost enum SquashInput {
    Accepted,
    Declined,
    Ran(Option<i32>, Seq<char>, Seq<char>),
}

impl View for SquashEvent {
    type V = SquashInput;

    open spec fn view(&self) -> SquashInput {
        match self {
            SquashEvent::Accepted => SquashInput::Accepted,
            SquashEvent::Declined => SquashInput::Declined,
            SquashEvent::Ran(r) => SquashInput::Ran(r.exit_code, r.stdout@, r.stderr@),
        }
    }
}

/// The state of the squash publisher as the transitions see it.
pub ghost struct SquashModel {
    pub step: SquashStep,
    pub ahead: u64,
    pub behind: u64,
    pub base: Seq<char>,
    pub tree: Seq<char>,
    pub commit: Seq<char>,
    /// The local branch whose merge base is looked up.
    pub left_ref: Seq<char>,
    /// The mirror's tracking ref it is compared with.
    pub right_ref: Seq<char>,
    pub error_text: Seq<char>,
}

pub open spec fn with_step(m: SquashModel, step: SquashStep) -> SquashModel {
    SquashModel { step, ..m }
}

pub open spec fn required(m: SquashModel, code: Option<i32>, next: SquashStep) -> SquashModel {
    if code == Some(0i32) {
        with_step(m, next)
    } else {
        with_step(m, SquashStep::Done(SquashEnd::Failed(code)))
    }
}

/// The step after a confirmation.
pub open spec fn answered(m: SquashModel, yes: bool) -> SquashModel {
    match m.step {
        SquashStep::Confirm => if yes {
            with_step(m, SquashStep::SwitchMain)
        } else {
            with_step(m, SquashStep::Done(SquashEnd::Aborted))
        },
        SquashStep::ConfirmReset => if yes {
            with_step(m, SquashStep::ResetToRemote)
        } else {
            with_step(m, SquashStep::Done(SquashEnd::Aborted))
        },
        SquashStep::ConfirmOverwrite => if yes {
            with_step(m, SquashStep::StageForRoot)
        } else {
            with_step(m, SquashStep::Done(SquashEnd::Aborted))
        },
        _ => m,
    }
}

/// The step after a command, given its exit code and output.
pub open spec fn ran(m: SquashModel, code: Option<i32>, out: Seq<char>, err: Seq<char>) -> SquashModel {
    let ok = code == Some(0i32);
    match m.step {
        SquashStep::SwitchMain => required(m, code, SquashStep::PullFastForward),
        SquashStep::PullFastForward => if ok {
            with_step(m, SquashStep::CheckMirrorBranch)
        } else {
            with_step(m, SquashStep::CountDivergence)
        },
        SquashStep::CountDivergence => if ok {
            SquashModel {
                step: SquashStep::ConfirmReset,
                ahead: ahead_behind(out).0,
                behind: ahead_behind(out).1,
                ..m
            }
        } else {
            with_step(m, SquashStep::Done(SquashEnd::Failed(code)))
        },
        SquashStep::ResetToRemote => required(m, code, SquashStep::CheckMirrorBranch),
        SquashStep::CheckMirrorBranch => if ok {
            with_step(m, SquashStep::FetchMirror)
        } else if code == Some(2i32) {
            with_step(m, SquashStep::StageForRoot)
        } else {
            with_step(m, SquashStep::Done(SquashEnd::Failed(code)))
        },
        SquashStep::FetchMirror => required(m, code, SquashStep::FindMergeBase),
        SquashStep::FindMergeBase => if ok {
            SquashModel { step: SquashStep::SoftResetToBase, base: trimmed(out), ..m }
        } else if is_unrelated_failure(err, out) {
            with_step(m, SquashStep::ConfirmOverwrite)
        } else {
            SquashModel {
                step: SquashStep::Done(SquashEnd::Failed(code)),
                error_text: trimmed(err),
                ..m
            }
        },
        SquashStep::SoftResetToBase => required(m, code, SquashStep::StageForSquash),
        SquashStep::StageForSquash => required(m, code, SquashStep::CheckSquashDiff),
        SquashStep::CheckSquashDiff => match code {
            Some(0i32) => with_step(m, SquashStep::Done(SquashEnd::NothingToPublish)),
            Some(_) => with_step(m, SquashStep::CommitSquash),
            None => with_step(m, SquashStep::Done(SquashEnd::Failed(None))),
        },
        SquashStep::CommitSquash => required(m, code, SquashStep::ForcePush),
        SquashStep::StageForRoot => required(m, code, SquashStep::WriteTree),
        SquashStep::WriteTree => if ok {
            SquashModel { step: SquashStep::CommitTree, tree: trimmed(out), ..m }
        } else {
            with_step(m, SquashStep::Done(SquashEnd::Failed(code)))
        },
        SquashStep::CommitTree => if ok {
            SquashModel { step: SquashStep::ResetToRoot, commit: trimmed(out), ..m }
        } else {
            with_step(m, SquashStep::Done(SquashEnd::Failed(code)))
        },
        SquashStep::ResetToRoot => required(m, code, SquashStep::ForcePush),
        SquashStep::ForcePush => required(m, code, SquashStep::Done(SquashEnd::Published)),
        _ => m,
    }
}

/// The transition of the squash publisher. An event that does not answer the
/// pending step leaves the state as it was.
pub open spec fn squash_next(m: SquashModel, ev: SquashInput) -> SquashModel {
    match ev {
        SquashInput::Accepted => answered(m, true),
        SquashInput::Declined => answered(m, false),
        SquashInput::Ran(code, out, err) => ran(m, code, out, err),
    }
}

/// Steps that change the local branch or publish.
pub open spec fn changes_branch(step: SquashStep) -> bool {
    match step {
        SquashStep::ResetToRemote | SquashStep::SoftResetToBase | SquashStep::CommitSquash
        | SquashStep::ResetToRoot | SquashStep::ForcePush => true,
        _ => false,
    }
}

/// Synchronises local main with the primary remote, then publishes it to the
/// mirror remote as a squashed history, one step at a time.
#[derive(Debug)]
pub struct SquashPublisher {
    pub step: SquashStep,
    pub ahead: u64,
    pub behind: u64,
    /// The merge base with the mirror's main, once found.
    pub base: String,
    /// The tree written for a root commit.
    pub tree: String,
    /// The root commit made over `tree`.
    pub commit: String,
    /// The local branch whose merge base is looked up.
    pub left_ref: String,
    /// The mirror's tracking ref it is compared with.
    pub right_ref: String,
    /// The trimmed error text of a fatal merge-base failure between
    /// `left_ref` and `right_ref`.
    pub error_text: String,
}

impl View for SquashPublisher {
    type V = SquashModel;

    open spec fn view(&self) -> SquashModel {
        SquashModel {
            step: self.step,
            ahead: self.ahead,
            behind: self.behind,
            base: self.base@,
            tree: self.tree@,
            commit: self.commit@,
            left_ref: self.left_ref@,
            right_ref: self.right_ref@,
            error_text: self.error_text@,
        }
    }
}

impl SquashPublisher {
    pub fn new(s: &Settings) -> (r: Self)
        ensures
            r.step == SquashStep::Confirm,
            r.ahead == 0 && r.behind == 0,
            r.base@.len() == 0 && r.tree@.len() == 0 && r.commit@.len() == 0,
            r.left_ref@ == s.main_branch@,
            r.right_ref@ == tracking(s.mirror@, s.main_branch@),
            r.error_text@.len() == 0,
    {
        SquashPublisher {
            step: SquashStep::Confirm,
            ahead: 0,
            behind: 0,
            base: String::new(),
            tree: String::new(),
            commit: String::new(),
            left_ref: s.main_branch.clone(),
            right_ref: s.mirror.clone().concat("/").concat(s.main_branch.as_str()),
            error_text: String::new(),
        }
    }

    pub fn is_done(&self) -> (r: bool)
        ensures
            r == (self.step is Done),
    {
        match self.step {
            SquashStep::Done(_) => true,
            _ => false,
        }
    }

    fn answer(&mut self, yes: bool)
        ensures
            final(self)@ == answered(old(self)@, yes),
    {
        let no = if yes {
            None
        } else {
            Some(SquashStep::Done(SquashEnd::Aborted))
        };
        match self.step {
            SquashStep::Confirm => {
                self.step = match no {
                    None => SquashStep::SwitchMain,
                    Some(s) => s,
                };
            },
            SquashStep::ConfirmReset => {
                self.step = match no {
                    None => SquashStep::ResetToRemote,
                    Some(s) => s,
                };
            },
            SquashStep::ConfirmOverwrite => {
                self.step = match no {
                    None => SquashStep::StageForRoot,
                    Some(s) => s,
                };
            },
            _ => {},
        }
    }

    fn require(&mut self, code: Option<i32>, next: SquashStep)
        ensures
            final(self)@ == required(old(self)@, code, next),
    {
        self.step = match code {
            Some(0i32) => next,
            _ => SquashStep::Done(SquashEnd::Failed(code)),
        };
    }

    fn record(&mut self, r: &RunResult)
        ensures
            final(self)@ == ran(old(self)@, r.exit_code, r.stdout@, r.stderr@),
    {
        let code = r.exit_code;
        let ok = match code {
            Some(0i32) => true,
            _ => false,
        };
        let failed = SquashStep::Done(SquashEnd::Failed(code));
        match self.step {
            SquashStep::SwitchMain => self.require(code, SquashStep::PullFastForward),
            SquashStep::PullFastForward => {
                self.step = if ok {
                    SquashStep::CheckMirrorBranch
                } else {
                    SquashStep::CountDivergence
                };
            },
            SquashStep::CountDivergence => {
                if ok {
                    let (ahead, behind) = parse_ahead_behind(r.stdout.as_str());
                    self.ahead = ahead;
                    self.behind = behind;
                    self.step = SquashStep::ConfirmReset;
                } else {
                    self.step = failed;
                }
            },
            SquashStep::ResetToRemote => self.require(code, SquashStep::CheckMirrorBranch),
            SquashStep::CheckMirrorBranch => {
                self.step = match remote_branch_presence(String::from_str("git ls-remote"), code) {
                    Ok(true) => SquashStep::FetchMirror,
                    Ok(false) => SquashStep::StageForRoot,
                    Err(_) => failed,
                };
            },
            SquashStep::FetchMirror => self.require(code, SquashStep::FindMergeBase),
            SquashStep::FindMergeBase => {
                match merge_base_outcome(
                    ok,
                    r.stdout.as_str(),
                    r.stderr.as_str(),
                    self.left_ref.as_str(),
                    self.right_ref.as_str(),
                ) {
                    Ok(Some(id)) => {
                        self.base = id;
                        self.step = SquashStep::SoftResetToBase;
                    },
                    Ok(None) => {
                        self.step = SquashStep::ConfirmOverwrite;
                    },
                    Err(e) => {
                        self.error_text = e.stderr;
                        self.step = failed;
                    },
                }
            },
            SquashStep::SoftResetToBase => self.require(code, SquashStep::StageForSquash),
            SquashStep::StageForSquash => self.require(code, SquashStep::CheckSquashDiff),
            SquashStep::CheckSquashDiff => {
                self.step = match code {
                    Some(0i32) => SquashStep::Done(SquashEnd::NothingToPublish),
                    Some(_) => SquashStep::CommitSquash,
                    None => SquashStep::Done(SquashEnd::Failed(None)),
                };
            },
            SquashStep::CommitSquash => self.require(code, SquashStep::ForcePush),
            SquashStep::StageForRoot => self.require(code, SquashStep::WriteTree),
            SquashStep::WriteTree => {
                if ok {
                    self.tree = trim(r.stdout.as_str());
                    self.step = SquashStep::CommitTree;
                } else {
                    self.step = failed;
                }
            },
            SquashStep::CommitTree => {
                if ok {
                    self.commit = trim(r.stdout.as_str());
                    self.step = SquashStep::ResetToRoot;
                } else {
                    self.step = failed;
                }
            },
            SquashStep::ResetToRoot => self.require(code, SquashStep::ForcePush),
            SquashStep::ForcePush => self.require(code, SquashStep::Done(SquashEnd::Published)),
            _ => {},
        }
    }

    /// Moves past the pending step given what happened there.
    pub fn advance(&mut self, ev: &SquashEvent)
        ensures
            final(self)@ == squash_next(old(self)@, ev@),
    {
        match ev {
            SquashEvent::Accepted => self.answer(true),
            SquashEvent::Declined => self.answer(false),
            SquashEvent::Ran(r) => self.record(r),
        }
    }
}

/// A command that exited with code zero and printed `out`.
pub open spec fn ran_ok(out: Seq<char>) -> SquashInput {
    SquashInput::Ran(Some(0i32), out, Seq::empty())
}

/// A finished run stays finished, whatever is reported afterwards.
pub proof fn lemma_done_is_final(m: SquashModel, ev: SquashInput)
    requires
        m.step is Done,
    ensures
        squash_next(m, ev) == m,
{
}

/// Declining the reset ends the run as a successful no-op: the state is kept
/// as it was, and no step that changes the local branch ever follows.
pub proof fn lemma_declined_reset_changes_nothing(m: SquashModel, later: SquashInput)
    requires
        m.step == SquashStep::ConfirmReset,
    ensures
        squash_next(m, SquashInput::Declined) == with_step(m, SquashStep::Done(SquashEnd::Aborted)),
        squash_next(squash_next(m, SquashInput::Declined), later) == squash_next(
            m,
            SquashInput::Declined,
        ),
        !changes_branch(squash_next(squash_next(m, SquashInput::Declined), later).step),
{
}

/// When the mirror has no main branch, the run stages everything, writes one
/// tree, makes one commit over exactly that tree with no parent, points local
/// main at it and force-pushes: no other commit is made on the way.
pub proof fn lemma_bootstrap_path(
    m: SquashModel,
    missing: Seq<char>,
    tree_out: Seq<char>,
    commit_out: Seq<char>,
)
    requires
        m.step == SquashStep::CheckMirrorBranch,
    ensures
        ({
            let m1 = squash_next(m, SquashInput::Ran(Some(2i32), Seq::empty(), missing));
            let m2 = squash_next(m1, ran_ok(Seq::empty()));
            let m3 = squash_next(m2, ran_ok(tree_out));
            let m4 = squash_next(m3, ran_ok(commit_out));
            let m5 = squash_next(m4, ran_ok(Seq::empty()));
            let m6 = squash_next(m5, ran_ok(Seq::empty()));
            &&& m1.step == SquashStep::StageForRoot
            &&& m2.step == SquashStep::WriteTree
            &&& m3.step == SquashStep::CommitTree && m3.tree == trimmed(tree_out)
            &&& m4.step == SquashStep::ResetToRoot && m4.tree == trimmed(tree_out)
            &&& m4.commit == trimmed(commit_out)
            &&& m5.step == SquashStep::ForcePush && m5.commit == trimmed(commit_out)
            &&& m6.step == SquashStep::Done(SquashEnd::Published)
        }),
{
}

/// With a merge base found and no staged difference after the soft reset to
/// it, the run reports nothing to publish and never pushes.
pub proof fn lemma_no_difference_is_not_pushed(m: SquashModel, base_out: Seq<char>, later: SquashInput)
    requires
        m.step == SquashStep::FindMergeBase,
    ensures
        ({
            let m1 = squash_next(m, ran_ok(base_out));
            let m2 = squash_next(m1, ran_ok(Seq::empty()));
            let m3 = squash_next(m2, ran_ok(Seq::empty()));
            let m4 = squash_next(m3, ran_ok(Seq::empty()));
            &&& m1.step == SquashStep::SoftResetToBase && m1.base == trimmed(base_out)
            &&& m2.step == SquashStep::StageForSquash
            &&& m3.step == SquashStep::CheckSquashDiff
            &&& m4.step == SquashStep::Done(SquashEnd::NothingToPublish)
            &&& squash_next(m4, later) == m4
        }),
{
}

/// The divergence resolver's decline path: after a failed fast-forward pull,
/// the count query and the declined reset prompt, the run ends as a
/// successful no-op. None of the steps on the way changes the local branch,
/// the state is the one before the pull apart from the counts shown, and no
/// step follows.
pub proof fn lemma_resolver_decline_path(
    m: SquashModel,
    pull_code: Option<i32>,
    pull_err: Seq<char>,
    counts_out: Seq<char>,
    later: SquashInput,
)
    requires
        m.step == SquashStep::PullFastForward,
        pull_code != Some(0i32),
    ensures
        ({
            let m1 = squash_next(m, SquashInput::Ran(pull_code, Seq::empty(), pull_err));
            let m2 = squash_next(m1, ran_ok(counts_out));
            let m3 = squash_next(m2, SquashInput::Declined);
            &&& m1.step == SquashStep::CountDivergence && !changes_branch(m1.step)
            &&& m2.step == SquashStep::ConfirmReset && !changes_branch(m2.step)
            &&& (m2.ahead, m2.behind) == ahead_behind(counts_out)
            &&& m3.step == SquashStep::Done(SquashEnd::Aborted)
            &&& m3 == SquashModel {
                step: SquashStep::Done(SquashEnd::Aborted),
                ahead: m2.ahead,
                behind: m2.behind,
                ..m
            }
            &&& squash_next(m3, later) == m3
            &&& !changes_branch(squash_next(m3, later).step)
        }),
{
}

} // verus!
