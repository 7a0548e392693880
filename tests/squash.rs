use labtohub::commands::{squash_command, Settings};
use labtohub::squash::{RunResult, SquashEnd, SquashEvent, SquashPublisher, SquashStep};

fn ran(code: Option<i32>, out: &str, err: &str) -> SquashEvent {
    SquashEvent::Ran(RunResult { exit_code: code, stdout: out.to_string(), stderr: err.to_string() })
}

fn ok() -> SquashEvent {
    ran(Some(0), "", "")
}

fn strings(v: &[&str]) -> Vec<String> {
    v.iter().map(|s| s.to_string()).collect()
}

fn synced() -> SquashPublisher {
    let mut p = SquashPublisher::new(&Settings::standard());
    p.advance(&SquashEvent::Accepted);
    assert_eq!(p.step, SquashStep::SwitchMain);
    p.advance(&ok());
    assert_eq!(p.step, SquashStep::PullFastForward);
    p.advance(&ok());
    assert_eq!(p.step, SquashStep::CheckMirrorBranch);
    p
}

#[test]
fn declining_the_plan_aborts_softly() {
    let mut p = SquashPublisher::new(&Settings::standard());
    p.advance(&SquashEvent::Declined);
    assert_eq!(p.step, SquashStep::Done(SquashEnd::Aborted));
}

#[test]
fn diverged_branch_reports_counts_and_declined_reset_aborts() {
    let mut p = SquashPublisher::new(&Settings::standard());
    p.advance(&SquashEvent::Accepted);
    p.advance(&ok());
    p.advance(&ran(Some(1), "", "fatal: Not possible to fast-forward"));
    assert_eq!(p.step, SquashStep::CountDivergence);
    p.advance(&ran(Some(0), "3\t5\n", ""));
    assert_eq!(p.step, SquashStep::ConfirmReset);
    assert_eq!((p.ahead, p.behind), (3, 5));
    p.advance(&SquashEvent::Declined);
    assert_eq!(p.step, SquashStep::Done(SquashEnd::Aborted));
    p.advance(&ok());
    assert_eq!(p.step, SquashStep::Done(SquashEnd::Aborted));
}

#[test]
fn accepted_reset_goes_on_to_the_mirror() {
    let mut p = SquashPublisher::new(&Settings::standard());
    p.advance(&SquashEvent::Accepted);
    p.advance(&ok());
    p.advance(&ran(Some(128), "", ""));
    p.advance(&ran(Some(0), "garbage", ""));
    assert_eq!((p.ahead, p.behind), (0, 0));
    p.advance(&SquashEvent::Accepted);
    assert_eq!(p.step, SquashStep::ResetToRemote);
    p.advance(&ok());
    assert_eq!(p.step, SquashStep::CheckMirrorBranch);
}

#[test]
fn bootstrap_makes_one_root_commit_and_force_pushes() {
    let s = Settings::standard();
    let m = "Initial publish";
    let mut p = synced();
    p.advance(&ran(Some(2), "", ""));
    assert_eq!(p.step, SquashStep::StageForRoot);
    assert_eq!(squash_command(&p, &s, m), Some(strings(&["add", "-A"])));
    p.advance(&ok());
    assert_eq!(squash_command(&p, &s, m), Some(strings(&["write-tree"])));
    p.advance(&ran(Some(0), "4b825dc\n", ""));
    assert_eq!(p.step, SquashStep::CommitTree);
    assert_eq!(
        squash_command(&p, &s, m),
        Some(strings(&["commit-tree", "4b825dc", "-m", m]))
    );
    p.advance(&ran(Some(0), "c0ffee\n", ""));
    assert_eq!(squash_command(&p, &s, m), Some(strings(&["reset", "--hard", "c0ffee"])));
    p.advance(&ok());
    assert_eq!(
        squash_command(&p, &s, m),
        Some(strings(&["push", "--force", "github", "main:main"]))
    );
    p.advance(&ok());
    assert_eq!(p.step, SquashStep::Done(SquashEnd::Published));
}

#[test]
fn listing_failure_is_fatal() {
    let mut p = synced();
    p.advance(&ran(Some(17), "", ""));
    assert_eq!(p.step, SquashStep::Done(SquashEnd::Failed(Some(17))));
}

#[test]
fn unrelated_histories_ask_before_overwriting() {
    let mut p = synced();
    p.advance(&ok());
    assert_eq!(p.step, SquashStep::FetchMirror);
    p.advance(&ok());
    assert_eq!(p.step, SquashStep::FindMergeBase);
    p.advance(&ran(Some(1), "", ""));
    assert_eq!(p.step, SquashStep::ConfirmOverwrite);
    let mut q = SquashPublisher { step: p.step, ..SquashPublisher::new(&Settings::standard()) };
    p.advance(&SquashEvent::Declined);
    assert_eq!(p.step, SquashStep::Done(SquashEnd::Aborted));
    q.advance(&SquashEvent::Accepted);
    assert_eq!(q.step, SquashStep::StageForRoot);
}

#[test]
fn fatal_merge_base_failure_keeps_its_text() {
    let mut p = synced();
    p.advance(&ok());
    p.advance(&ok());
    p.advance(&ran(Some(128), "", "fatal: repository corrupt\n"));
    assert_eq!(p.step, SquashStep::Done(SquashEnd::Failed(Some(128))));
    assert_eq!(p.error_text, "fatal: repository corrupt");
    assert_eq!(p.left_ref, "main");
    assert_eq!(p.right_ref, "github/main");
}

#[test]
fn incremental_squash_with_no_difference_publishes_nothing() {
    let s = Settings::standard();
    let mut p = synced();
    p.advance(&ok());
    p.advance(&ok());
    p.advance(&ran(Some(0), "1234abcd\n", ""));
    assert_eq!(p.step, SquashStep::SoftResetToBase);
    assert_eq!(squash_command(&p, &s, "m"), Some(strings(&["reset", "--soft", "1234abcd"])));
    p.advance(&ok());
    p.advance(&ok());
    assert_eq!(p.step, SquashStep::CheckSquashDiff);
    p.advance(&ok());
    assert_eq!(p.step, SquashStep::Done(SquashEnd::NothingToPublish));
    assert_eq!(squash_command(&p, &s, "m"), None);
}

#[test]
fn incremental_squash_with_changes_force_pushes() {
    let mut p = synced();
    p.advance(&ok());
    p.advance(&ok());
    p.advance(&ran(Some(0), "1234abcd\n", ""));
    p.advance(&ok());
    p.advance(&ok());
    p.advance(&ran(Some(1), "", ""));
    assert_eq!(p.step, SquashStep::CommitSquash);
    p.advance(&ok());
    assert_eq!(p.step, SquashStep::ForcePush);
    p.advance(&ok());
    assert_eq!(p.step, SquashStep::Done(SquashEnd::Published));
}

#[test]
fn squash_commands() {
    let s = Settings::standard();
    let mut p = SquashPublisher::new(&Settings::standard());
    assert_eq!(squash_command(&p, &s, "m"), None);
    p.step = SquashStep::PullFastForward;
    assert_eq!(squash_command(&p, &s, "m"), Some(strings(&["pull", "--ff-only", "origin", "main"])));
    p.step = SquashStep::CountDivergence;
    assert_eq!(
        squash_command(&p, &s, "m"),
        Some(strings(&["rev-list", "--left-right", "--count", "main...origin/main"]))
    );
    p.step = SquashStep::CheckMirrorBranch;
    assert_eq!(
        squash_command(&p, &s, "m"),
        Some(strings(&["ls-remote", "--exit-code", "--heads", "github", "main"]))
    );
    p.step = SquashStep::FindMergeBase;
    assert_eq!(
        squash_command(&p, &s, "m"),
        Some(strings(&["merge-base", "main", "github/main"]))
    );
    p.step = SquashStep::CommitSquash;
    assert_eq!(squash_command(&p, &s, "msg"), Some(strings(&["commit", "-m", "msg"])));
}

#[test]
fn unicode_whitespace_separates_counts() {
    let mut p = SquashPublisher::new(&Settings::standard());
    p.advance(&SquashEvent::Accepted);
    p.advance(&ok());
    p.advance(&ran(Some(1), "", ""));
    p.advance(&ran(Some(0), "3\u{A0}5", ""));
    assert_eq!((p.ahead, p.behind), (3, 5));
}
