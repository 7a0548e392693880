use vstd::prelude::*;
use vstd::string::*;
use crate::squash::{ran_ok, squash_next, SquashModel, SquashPublisher, SquashStep};
use crate::text::trimmed;
use crate::worktree::WorktreeStep;

verus! {

/// The fixed names a run works with.
#[derive(Debug, Clone)]
pub struct Settings {
    /// The primary development remote.
    pub primary: String,
    /// The public mirror remote.
    pub mirror: String,
    /// The one branch both remotes publish.
    pub main_branch: String,
    /// Where the temporary worktree is checked out.
    pub worktree_path: String,
    /// The branch the temporary worktree builds the merge on.
    pub staging_branch: String,
}

impl Settings {
    /// The remotes `origin` and `github`, branch `main`, and the worktree
    /// `.labtohub-tmp` on branch `labtohub-main`.
    pub fn standard() -> (r: Self)
        ensures
            r.primary@ == "origin"@,
            r.mirror@ == "github"@,
            r.main_branch@ == "main"@,
            r.worktree_path@ == ".labtohub-tmp"@,
            r.staging_branch@ == "labtohub-main"@,
    {
        Settings {
            primary: String::from_str("origin"),
            mirror: String::from_str("github"),
            main_branch: String::from_str("main"),
            worktree_path: String::from_str(".labtohub-tmp"),
            staging_branch: String::from_str("labtohub-main"),
        }
    }
}

pub open spec fn views(v: Seq<String>) -> Seq<Seq<char>> {
    v.map_values(|s: String| s@)
}

/// `<remote>/<branch>`, a remote-tracking ref.
pub open spec fn tracking(remote: Seq<char>, branch: Seq<char>) -> Seq<char> {
    remote + "/"@ + branch
}

/// `<from>:<to>`, a push refspec.
pub open spec fn refspec(from: Seq<char>, to: Seq<char>) -> Seq<char> {
    from + ":"@ + to
}

/// Arguments that run a command inside the temporary worktree.
pub open spec fn in_worktree(s: Settings, rest: Seq<Seq<char>>) -> Seq<Seq<char>> {
    seq!["-C"@, s.worktree_path@] + rest
}

/// The git arguments of each command step of the worktree publisher.
pub open spec fn worktree_args(
    step: WorktreeStep,
    s: Settings,
    branch: Seq<char>,
    message: Seq<char>,
) -> Option<Seq<Seq<char>>> {
    match step {
        WorktreeStep::FetchMirror => Some(seq!["fetch"@, s.mirror@, s.main_branch@]),
        WorktreeStep::FetchPrimary => Some(seq!["fetch"@, s.primary@, s.main_branch@]),
        WorktreeStep::RemoveStaleWorktree => Some(remove_worktree_args(s)),
        WorktreeStep::AddWorktree => Some(
            seq![
                "worktree"@,
                "add"@,
                "--force"@,
                "-B"@,
                s.staging_branch@,
                s.worktree_path@,
                tracking(s.mirror@, s.main_branch@),
            ],
        ),
        WorktreeStep::CreateContentBranch => Some(in_worktree(s, seq!["switch"@, "-C"@, branch])),
        WorktreeStep::RestoreFromPrimary => Some(
            in_worktree(
                s,
                seq![
                    "restore"@,
                    "--source"@,
                    tracking(s.primary@, s.main_branch@),
                    "--staged"@,
                    "--worktree"@,
                    "."@,
                ],
            ),
        ),
        WorktreeStep::CleanUntracked => Some(in_worktree(s, seq!["clean"@, "-fd"@])),
        WorktreeStep::StageAll => Some(in_worktree(s, seq!["add"@, "-A"@])),
        WorktreeStep::CheckStagedDiff => Some(in_worktree(s, seq!["diff"@, "--cached"@, "--quiet"@])),
        WorktreeStep::Commit => Some(in_worktree(s, seq!["commit"@, "-m"@, message])),
        WorktreeStep::SwitchToStaging => Some(in_worktree(s, seq!["switch"@, s.staging_branch@])),
        WorktreeStep::Merge => Some(
            in_worktree(s, seq!["merge"@, "--no-ff"@, branch, "-m"@, message]),
        ),
        WorktreeStep::Push => Some(
            in_worktree(
                s,
                seq!["push"@, s.mirror@, refspec(s.staging_branch@, s.main_branch@)],
            ),
        ),
        _ => None,
    }
}

/// The git arguments that force-remove the temporary worktree's registration.
pub open spec fn remove_worktree_args(s: Settings) -> Seq<Seq<char>> {
    seq!["worktree"@, "remove"@, "--force"@, s.worktree_path@]
}

/// The git arguments of each command step of the squash publisher.
pub open spec fn squash_args(
    step: SquashStep,
    s: Settings,
    base: Seq<char>,
    tree: Seq<char>,
    commit: Seq<char>,
    message: Seq<char>,
) -> Option<Seq<Seq<char>>> {
    match step {
        SquashStep::SwitchMain => Some(seq!["switch"@, s.main_branch@]),
        SquashStep::PullFastForward => Some(seq!["pull"@, "--ff-only"@, s.primary@, s.main_branch@]),
        SquashStep::CountDivergence => Some(
            seq![
                "rev-list"@,
                "--left-right"@,
                "--count"@,
                s.main_branch@ + "..."@ + tracking(s.primary@, s.main_branch@),
            ],
        ),
        SquashStep::ResetToRemote => Some(
            seq!["reset"@, "--hard"@, tracking(s.primary@, s.main_branch@)],
        ),
        SquashStep::CheckMirrorBranch => Some(
            seq!["ls-remote"@, "--exit-code"@, "--heads"@, s.mirror@, s.main_branch@],
        ),
        SquashStep::FetchMirror => Some(seq!["fetch"@, s.mirror@]),
        SquashStep::FindMergeBase => Some(
            seq!["merge-base"@, s.main_branch@, tracking(s.mirror@, s.main_branch@)],
        ),
        SquashStep::SoftResetToBase => Some(seq!["reset"@, "--soft"@, base]),
        SquashStep::StageForSquash => Some(seq!["add"@, "-A"@]),
        SquashStep::CheckSquashDiff => Some(seq!["diff"@, "--cached"@, "--quiet"@]),
        SquashStep::CommitSquash => Some(seq!["commit"@, "-m"@, message]),
        SquashStep::StageForRoot => Some(seq!["add"@, "-A"@]),
        SquashStep::WriteTree => Some(seq!["write-tree"@]),
        SquashStep::CommitTree => Some(seq!["commit-tree"@, tree, "-m"@, message]),
        SquashStep::ResetToRoot => Some(seq!["reset"@, "--hard"@, commit]),
        SquashStep::ForcePush => Some(
            seq!["push"@, "--force"@, s.mirror@, refspec(s.main_branch@, s.main_branch@)],
        ),
        _ => None,
    }
}

fn lit(s: &str) -> (r: String)
    ensures
        r@ == s@,
{
    String::from_str(s)
}

fn joined(a: &String, sep: &str, b: &String) -> (r: String)
    ensures
        r@ == a@ + sep@ + b@,
{
    a.clone().concat(sep).concat(b.as_str())
}

fn prefixed(s: &Settings, rest: Vec<String>) -> (r: Vec<String>)
    ensures
        views(r@) == in_worktree(*s, views(rest@)),
{
    let mut v: Vec<String> = Vec::new();
    v.push(lit("-C"));
    v.push(s.worktree_path.clone());
    let mut i: usize = 0;
    while i < rest.len()
        invariant
            i <= rest.len(),
            views(v@) == in_worktree(*s, views(rest@.subrange(0, i as int))),
        decreases rest.len() - i,
    {
        let ghost before = v@;
        let item = rest[i].clone();
        v.push(item);
        proof {
            assert(item@ == rest@[i as int]@);
            assert(views(v@) =~= views(before).push(item@));
            assert(views(rest@.subrange(0, i + 1)) =~= views(rest@.subrange(0, i as int)).push(
                rest@[i as int]@,
            ));
            assert(views(v@) =~= in_worktree(*s, views(rest@.subrange(0, i + 1))));
        }
        i = i + 1;
    }
    assert(rest@.subrange(0, rest@.len() as int) =~= rest@);
    v
}

/// The git arguments of the worktree publisher's pending step, or `None`
/// when that step runs no git command.
pub fn worktree_command(step: WorktreeStep, s: &Settings, branch: &str, message: &str) -> (r:
    Option<Vec<String>>)
    ensures
        r is Some <==> worktree_args(step, *s, branch@, message@) is Some,
        r matches Some(v) ==> Some(views(v@)) == worktree_args(step, *s, branch@, message@),
{
    let v = match step {
        WorktreeStep::FetchMirror => vec![lit("fetch"), s.mirror.clone(), s.main_branch.clone()],
        WorktreeStep::FetchPrimary => vec![lit("fetch"), s.primary.clone(), s.main_branch.clone()],
        WorktreeStep::RemoveStaleWorktree => remove_worktree_command(s),
        WorktreeStep::AddWorktree => vec![
            lit("worktree"),
            lit("add"),
            lit("--force"),
            lit("-B"),
            s.staging_branch.clone(),
            s.worktree_path.clone(),
            joined(&s.mirror, "/", &s.main_branch),
        ],
        WorktreeStep::CreateContentBranch => prefixed(
            s,
            vec![lit("switch"), lit("-C"), String::from_str(branch)],
        ),
        WorktreeStep::RestoreFromPrimary => prefixed(
            s,
            vec![
                lit("restore"),
                lit("--source"),
                joined(&s.primary, "/", &s.main_branch),
                lit("--staged"),
                lit("--worktree"),
                lit("."),
            ],
        ),
        WorktreeStep::CleanUntracked => prefixed(s, vec![lit("clean"), lit("-fd")]),
        WorktreeStep::StageAll => prefixed(s, vec![lit("add"), lit("-A")]),
        WorktreeStep::CheckStagedDiff => prefixed(
            s,
            vec![lit("diff"), lit("--cached"), lit("--quiet")],
        ),
        WorktreeStep::Commit => prefixed(
            s,
            vec![lit("commit"), lit("-m"), String::from_str(message)],
        ),
        WorktreeStep::SwitchToStaging => prefixed(
            s,
            vec![lit("switch"), s.staging_branch.clone()],
        ),
        WorktreeStep::Merge => prefixed(
            s,
            vec![
                lit("merge"),
                lit("--no-ff"),
                String::from_str(branch),
                lit("-m"),
                String::from_str(message),
            ],
        ),
        WorktreeStep::Push => prefixed(
            s,
            vec![lit("push"), s.mirror.clone(), joined(&s.staging_branch, ":", &s.main_branch)],
        ),
        _ => {
            return None;
        },
    };
    proof {
        assert(views(v@) =~= worktree_args(step, *s, branch@, message@)->Some_0);
    }
    Some(v)
}

/// The git arguments that force-remove the temporary worktree's registration.
pub fn remove_worktree_command(s: &Settings) -> (r: Vec<String>)
    ensures
        views(r@) == remove_worktree_args(*s),
{
    let v = vec![lit("worktree"), lit("remove"), lit("--force"), s.worktree_path.clone()];
    assert(views(v@) =~= remove_worktree_args(*s));
    v
}

/// The git arguments of the squash publisher's pending step, or `None` when
/// that step runs no git command.
pub fn squash_command(p: &SquashPublisher, s: &Settings, message: &str) -> (r: Option<Vec<String>>)
    ensures
        r is Some <==> squash_args(p.step, *s, p.base@, p.tree@, p.commit@, message@) is Some,
        r matches Some(v) ==> Some(views(v@)) == squash_args(
            p.step,
            *s,
            p.base@,
            p.tree@,
            p.commit@,
            message@,
        ),
{
    let v = match p.step {
        SquashStep::SwitchMain => vec![lit("switch"), s.main_branch.clone()],
        SquashStep::PullFastForward => vec![
            lit("pull"),
            lit("--ff-only"),
            s.primary.clone(),
            s.main_branch.clone(),
        ],
        SquashStep::CountDivergence => {
            let remote = joined(&s.primary, "/", &s.main_branch);
            vec![
                lit("rev-list"),
                lit("--left-right"),
                lit("--count"),
                joined(&s.main_branch, "...", &remote),
            ]
        },
        SquashStep::ResetToRemote => vec![
            lit("reset"),
            lit("--hard"),
            joined(&s.primary, "/", &s.main_branch),
        ],
        SquashStep::CheckMirrorBranch => vec![
            lit("ls-remote"),
            lit("--exit-code"),
            lit("--heads"),
            s.mirror.clone(),
            s.main_branch.clone(),
        ],
        SquashStep::FetchMirror => vec![lit("fetch"), s.mirror.clone()],
        SquashStep::FindMergeBase => vec![
            lit("merge-base"),
            s.main_branch.clone(),
            joined(&s.mirror, "/", &s.main_branch),
        ],
        SquashStep::SoftResetToBase => vec![lit("reset"), lit("--soft"), p.base.clone()],
        SquashStep::StageForSquash => vec![lit("add"), lit("-A")],
        SquashStep::CheckSquashDiff => vec![lit("diff"), lit("--cached"), lit("--quiet")],
        SquashStep::CommitSquash => vec![lit("commit"), lit("-m"), String::from_str(message)],
        SquashStep::StageForRoot => vec![lit("add"), lit("-A")],
        SquashStep::WriteTree => vec![lit("write-tree")],
        SquashStep::CommitTree => vec![
            lit("commit-tree"),
            p.tree.clone(),
            lit("-m"),
            String::from_str(message),
        ],
        SquashStep::ResetToRoot => vec![lit("reset"), lit("--hard"), p.commit.clone()],
        SquashStep::ForcePush => vec![
            lit("push"),
            lit("--force"),
            s.mirror.clone(),
            joined(&s.main_branch, ":", &s.main_branch),
        ],
        _ => {
            return None;
        },
    };
    proof {
        assert(views(v@) =~= squash_args(p.step, *s, p.base@, p.tree@, p.commit@, message@)->Some_0);
    }
    Some(v)
}

/// On the bootstrap path the one commit is made by `commit-tree` over exactly
/// the tree just written from the staged working tree, with no parent.
pub proof fn lemma_root_commit_of_written_tree(
    m: SquashModel,
    s: Settings,
    tree_out: Seq<char>,
    message: Seq<char>,
)
    requires
        m.step == SquashStep::WriteTree,
    ensures
        ({
            let n = squash_next(m, ran_ok(tree_out));
            squash_args(n.step, s, n.base, n.tree, n.commit, message) == Some(
                seq!["commit-tree"@, trimmed(tree_out), "-m"@, message],
            )
        }),
{
}

} // verus!
