use labtohub::cleanup::Cleanup;
use labtohub::commands::{remove_worktree_command, worktree_command, Settings};
use labtohub::worktree::{Event, WorktreeEnd, WorktreePublisher, WorktreeStep};

const OK: Event = Event::Exited(Some(0));

fn run_until(p: &mut WorktreePublisher, step: WorktreeStep) {
    p.advance(Event::Accepted);
    while p.step != step {
        assert!(!p.is_done());
        p.advance(OK);
    }
}

#[test]
fn cleanup_starts_unarmed_and_releases_once() {
    let mut c = Cleanup::new();
    assert!(!c.worktree_created);
    assert!(!c.release());
    c.mark_worktree();
    assert!(c.worktree_created);
    assert!(c.release());
    assert!(!c.release());
}

#[test]
fn full_run_publishes() {
    let mut p = WorktreePublisher::new();
    let expected = [
        WorktreeStep::FetchMirror,
        WorktreeStep::FetchPrimary,
        WorktreeStep::RemoveStaleWorktree,
        WorktreeStep::RemoveStaleDir,
        WorktreeStep::AddWorktree,
        WorktreeStep::CreateContentBranch,
        WorktreeStep::RestoreFromPrimary,
        WorktreeStep::CleanUntracked,
        WorktreeStep::StageAll,
    ];
    p.advance(Event::Accepted);
    for step in expected.iter() {
        assert_eq!(p.step, *step);
        p.advance(OK);
    }
    assert!(p.cleanup.worktree_created);
    assert_eq!(p.step, WorktreeStep::CheckStagedDiff);
    p.advance(Event::Exited(Some(1)));
    assert_eq!(p.step, WorktreeStep::Commit);
    for step in [WorktreeStep::Commit, WorktreeStep::SwitchToStaging, WorktreeStep::Merge, WorktreeStep::Push] {
        assert_eq!(p.step, step);
        p.advance(OK);
    }
    assert_eq!(p.step, WorktreeStep::Done(WorktreeEnd::Published));
    assert!(p.is_done());
    assert!(p.cleanup.release());
}

#[test]
fn declining_the_plan_is_a_failure_end() {
    let mut p = WorktreePublisher::new();
    p.advance(Event::Declined);
    assert_eq!(p.step, WorktreeStep::Done(WorktreeEnd::Declined));
    assert!(!p.cleanup.worktree_created);
}

#[test]
fn stale_worktree_removal_failures_are_ignored() {
    let mut p = WorktreePublisher::new();
    run_until(&mut p, WorktreeStep::RemoveStaleWorktree);
    p.advance(Event::Exited(Some(128)));
    assert_eq!(p.step, WorktreeStep::RemoveStaleDir);
    p.advance(Event::Exited(None));
    assert_eq!(p.step, WorktreeStep::AddWorktree);
}

#[test]
fn failed_fetch_ends_before_any_worktree() {
    let mut p = WorktreePublisher::new();
    p.advance(Event::Accepted);
    p.advance(Event::Exited(Some(1)));
    assert_eq!(p.step, WorktreeStep::Done(WorktreeEnd::Failed(Some(1))));
    assert!(!p.cleanup.worktree_created);
}

#[test]
fn failed_add_leaves_nothing_to_clean() {
    let mut p = WorktreePublisher::new();
    run_until(&mut p, WorktreeStep::AddWorktree);
    p.advance(Event::Exited(Some(128)));
    assert_eq!(p.step, WorktreeStep::Done(WorktreeEnd::Failed(Some(128))));
    assert!(!p.cleanup.worktree_created);
}

#[test]
fn no_difference_ends_without_merge_or_push() {
    let mut p = WorktreePublisher::new();
    run_until(&mut p, WorktreeStep::CheckStagedDiff);
    p.advance(OK);
    assert_eq!(p.step, WorktreeStep::Done(WorktreeEnd::NothingToPublish));
    p.advance(OK);
    p.advance(Event::Accepted);
    assert_eq!(p.step, WorktreeStep::Done(WorktreeEnd::NothingToPublish));
    assert!(p.cleanup.release());
}

#[test]
fn merge_conflict_still_cleans_up() {
    let mut p = WorktreePublisher::new();
    p.advance(Event::Accepted);
    while p.step != WorktreeStep::CheckStagedDiff {
        p.advance(OK);
    }
    p.advance(Event::Exited(Some(1)));
    while p.step != WorktreeStep::Merge {
        p.advance(OK);
    }
    p.advance(Event::Exited(Some(1)));
    assert_eq!(p.step, WorktreeStep::Done(WorktreeEnd::Failed(Some(1))));
    assert!(p.cleanup.release());
    assert!(!p.cleanup.release());
}

#[test]
fn unanswered_events_leave_the_step_pending() {
    let mut p = WorktreePublisher::new();
    p.advance(OK);
    assert_eq!(p.step, WorktreeStep::Confirm);
    p.advance(Event::Accepted);
    p.advance(Event::Declined);
    assert_eq!(p.step, WorktreeStep::FetchMirror);
}

fn strings(v: &[&str]) -> Vec<String> {
    v.iter().map(|s| s.to_string()).collect()
}

#[test]
fn worktree_commands() {
    let s = Settings::standard();
    let b = "fix-bug-123";
    let m = "Fix Bug #123";
    assert_eq!(
        worktree_command(WorktreeStep::FetchMirror, &s, b, m),
        Some(strings(&["fetch", "github", "main"]))
    );
    assert_eq!(
        worktree_command(WorktreeStep::FetchPrimary, &s, b, m),
        Some(strings(&["fetch", "origin", "main"]))
    );
    assert_eq!(
        worktree_command(WorktreeStep::AddWorktree, &s, b, m),
        Some(strings(&[
            "worktree", "add", "--force", "-B", "labtohub-main", ".labtohub-tmp", "github/main"
        ]))
    );
    assert_eq!(
        worktree_command(WorktreeStep::RestoreFromPrimary, &s, b, m),
        Some(strings(&[
            "-C", ".labtohub-tmp", "restore", "--source", "origin/main", "--staged", "--worktree", "."
        ]))
    );
    assert_eq!(
        worktree_command(WorktreeStep::Merge, &s, b, m),
        Some(strings(&["-C", ".labtohub-tmp", "merge", "--no-ff", b, "-m", m]))
    );
    assert_eq!(
        worktree_command(WorktreeStep::Push, &s, b, m),
        Some(strings(&["-C", ".labtohub-tmp", "push", "github", "labtohub-main:main"]))
    );
    assert_eq!(worktree_command(WorktreeStep::Confirm, &s, b, m), None);
    assert_eq!(worktree_command(WorktreeStep::RemoveStaleDir, &s, b, m), None);
    assert_eq!(
        worktree_command(WorktreeStep::Done(WorktreeEnd::Published), &s, b, m),
        None
    );
    assert_eq!(
        remove_worktree_command(&s),
        strings(&["worktree", "remove", "--force", ".labtohub-tmp"])
    );
}
