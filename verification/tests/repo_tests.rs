use rusted::process::ProcessOutcome;
use rusted::repo::{
    command_output, commit_file, git_subcommand, list_changed_files, plan_commits, push_commits,
    stage_file, update_git_repo, GitCommand, RepoError, RepoUpdate, Stage,
};

fn ok(stdout: &str) -> ProcessOutcome {
    ProcessOutcome::Exited { success: true, stdout: stdout.as_bytes().to_vec(), stderr: Vec::new() }
}

fn failed(stdout: &str, stderr: &str) -> ProcessOutcome {
    ProcessOutcome::Exited {
        success: false,
        stdout: stdout.as_bytes().to_vec(),
        stderr: stderr.as_bytes().to_vec(),
    }
}

fn words(c: &GitCommand) -> Vec<String> {
    let mut w = vec![c.subcmd.clone()];
    w.extend(c.args.iter().cloned());
    w
}

/// Runs the committer, answering the commands with `outcomes` in turn, and
/// returns the commands that it handed out and how it ended.
fn drive(
    state_dir: &str,
    no_push: bool,
    exists: bool,
    outcomes: Vec<ProcessOutcome>,
) -> (Vec<Vec<String>>, RepoUpdate) {
    let (mut update, mut next) = update_git_repo(state_dir, no_push, exists);
    let mut issued = Vec::new();
    let mut outcomes = outcomes.into_iter();
    while let Some(command) = next {
        assert_eq!(command.workdir, state_dir);
        issued.push(words(&command));
        let outcome = outcomes.next().expect("more commands than outcomes");
        let (u, n) = update.advance(&outcome);
        update = u;
        next = n;
    }
    (issued, update)
}

#[test]
fn commands_are_built_as_described() {
    let c = git_subcommand("status", "dir", vec!["-s".to_string()], true);
    assert_eq!((c.subcmd.as_str(), c.workdir.as_str(), c.with_output), ("status", "dir", true));
    assert_eq!(c.args, vec!["-s"]);
    let c = list_changed_files("configs");
    assert_eq!(words(&c), vec!["ls-files", "--modified", "--others", "--exclude-standard"]);
    assert!(c.with_output);
    let c = stage_file("configs", "sw1");
    assert_eq!(words(&c), vec!["add", "sw1"]);
    assert!(!c.with_output);
    let c = commit_file("configs", "sw1");
    assert_eq!(words(&c), vec!["commit", "--message", "Update sw1"]);
    assert!(!c.with_output);
    let c = push_commits("configs");
    assert_eq!(words(&c), vec!["push"]);
    assert_eq!(c.workdir, "configs");
}

#[test]
fn plan_has_one_commit_per_file() {
    let files = vec!["a".to_string(), "b c".to_string(), "d".to_string()];
    let plan: Vec<Vec<String>> = plan_commits("dir", &files, true).iter().map(words).collect();
    assert_eq!(
        plan,
        vec![
            vec!["add", "a"],
            vec!["commit", "--message", "Update a"],
            vec!["add", "b c"],
            vec!["commit", "--message", "Update b c"],
            vec!["add", "d"],
            vec!["commit", "--message", "Update d"],
            vec!["push"],
        ]
    );
    let commits = plan.iter().filter(|c| c[0] == "commit").count();
    assert_eq!(commits, files.len());
}

#[test]
fn plan_without_push_holds_no_push() {
    let files = vec!["a".to_string()];
    let plan: Vec<Vec<String>> = plan_commits("dir", &files, false).iter().map(words).collect();
    assert_eq!(plan, vec![vec!["add", "a"], vec!["commit", "--message", "Update a"]]);
    assert!(plan_commits("dir", &Vec::new(), false).is_empty());
    let plan: Vec<Vec<String>> = plan_commits("dir", &Vec::new(), true).iter().map(words).collect();
    assert_eq!(plan, vec![vec!["push"]]);
}

#[test]
fn run_lists_then_commits_each_file_then_pushes() {
    let outcomes = vec![ok("sw1\nsw2\n"), ok(""), ok("ignored"), ok(""), ok(""), ok("")];
    let (issued, update) = drive("configs", false, true, outcomes);
    assert_eq!(
        issued,
        vec![
            vec!["ls-files", "--modified", "--others", "--exclude-standard"],
            vec!["add", "sw1"],
            vec!["commit", "--message", "Update sw1"],
            vec!["add", "sw2"],
            vec!["commit", "--message", "Update sw2"],
            vec!["push"],
        ]
    );
    assert!(matches!(update.into_result(), Some(Ok(()))));
}

#[test]
fn run_without_push_issues_no_push() {
    let (issued, update) = drive("configs", true, true, vec![ok("sw1\n"), ok(""), ok("")]);
    assert_eq!(
        issued,
        vec![
            vec!["ls-files", "--modified", "--others", "--exclude-standard"],
            vec!["add", "sw1"],
            vec!["commit", "--message", "Update sw1"],
        ]
    );
    assert!(matches!(update.into_result(), Some(Ok(()))));
}

#[test]
fn run_with_nothing_changed_only_pushes() {
    let (issued, update) = drive("configs", false, true, vec![ok(""), ok("")]);
    assert_eq!(
        issued,
        vec![vec!["ls-files", "--modified", "--others", "--exclude-standard"], vec!["push"]]
    );
    assert!(matches!(update.into_result(), Some(Ok(()))));
    let (issued, update) = drive("configs", true, true, vec![ok("")]);
    assert_eq!(issued.len(), 1);
    assert!(matches!(update.into_result(), Some(Ok(()))));
}

#[test]
fn files_are_committed_in_the_order_of_the_listing() {
    let (issued, _) = drive("c", true, true, vec![ok("z\na\nm"), ok(""), ok(""), ok(""), ok(""), ok(""), ok("")]);
    let added: Vec<&str> = issued.iter().filter(|c| c[0] == "add").map(|c| c[1].as_str()).collect();
    assert_eq!(added, vec!["z", "a", "m"]);
}

#[test]
fn failed_command_stops_the_run() {
    let outcomes = vec![ok("sw1\nsw2\n"), ok(""), failed("nothing to commit", "fatal: bad")];
    let (issued, update) = drive("configs", false, true, outcomes);
    assert_eq!(
        issued,
        vec![
            vec!["ls-files", "--modified", "--others", "--exclude-standard"],
            vec!["add", "sw1"],
            vec!["commit", "--message", "Update sw1"],
        ]
    );
    // nothing is handed out after the failure, whatever comes in
    let (update, next) = update.advance(&ok(""));
    assert!(next.is_none());
    let (update, next) = update.advance(&ok("x\ny"));
    assert!(next.is_none());
    match update.into_result() {
        Some(Err(e)) => {
            assert!(matches!(e, RepoError::CommandFailed { .. }));
            assert_eq!(e.message(), "git ls-files failed:\nstderr:\nfatal: bad\nstdout:\nnothing to commit");
        }
        other => panic!("unexpected result {other:?}"),
    }
}

#[test]
fn failed_listing_stops_the_run() {
    let (issued, update) = drive("configs", false, true, vec![failed("", "not a git repository")]);
    assert_eq!(issued.len(), 1);
    assert!(matches!(update.into_result(), Some(Err(RepoError::CommandFailed { .. }))));
}

#[test]
fn git_that_cannot_be_run_stops_the_run() {
    let outcome = ProcessOutcome::LaunchFailed { reason: "not found".to_string() };
    let (issued, update) = drive("configs", false, true, vec![outcome]);
    assert_eq!(issued.len(), 1);
    match update.into_result() {
        Some(Err(e)) => assert_eq!(e.message(), "git command failed: not found"),
        other => panic!("unexpected result {other:?}"),
    }
}

#[test]
fn undecodable_listing_stops_the_run() {
    let outcome = ProcessOutcome::Exited { success: true, stdout: vec![0xff], stderr: Vec::new() };
    let (issued, update) = drive("configs", false, true, vec![outcome]);
    assert_eq!(issued.len(), 1);
    match update.into_result() {
        Some(Err(e)) => {
            assert!(matches!(e, RepoError::InvalidOutput));
            assert_eq!(e.message(), "git did not write valid UTF-8");
        }
        other => panic!("unexpected result {other:?}"),
    }
}

#[test]
fn undecodable_output_of_a_later_command_does_no_harm() {
    let noise = ProcessOutcome::Exited { success: true, stdout: vec![0xff], stderr: vec![0xfe] };
    let (issued, update) = drive("configs", true, true, vec![ok("f"), noise, ok("")]);
    assert_eq!(issued.len(), 3);
    assert!(matches!(update.into_result(), Some(Ok(()))));
}

#[test]
fn missing_state_dir_fails_before_any_command() {
    let (update, next) = update_git_repo("configs", false, false);
    assert!(next.is_none());
    assert!(matches!(update.stage, Stage::Failed(RepoError::StateDirMissing { .. })));
    let (update, next) = update.advance(&ok("sw1"));
    assert!(next.is_none());
    match update.into_result() {
        Some(Err(e)) => assert_eq!(e.message(), "state_dir configs does not exist"),
        other => panic!("unexpected result {other:?}"),
    }
}

#[test]
fn run_that_is_not_over_has_no_result() {
    let (update, next) = update_git_repo("configs", false, true);
    assert!(next.is_some());
    assert!(update.into_result().is_none());
    let (update, _) = update_git_repo("configs", false, true);
    let (update, next) = update.advance(&ok("a"));
    assert!(next.is_some());
    assert!(update.into_result().is_none());
}

#[test]
fn finished_run_stays_finished() {
    let (_, update) = drive("configs", true, true, vec![ok("")]);
    let (update, next) = update.advance(&failed("", "late"));
    assert!(next.is_none());
    assert!(matches!(update.into_result(), Some(Ok(()))));
}

#[test]
fn command_output_is_taken_only_where_wanted() {
    assert_eq!(command_output(true, &ok("listing")).unwrap(), Some("listing".to_string()));
    assert_eq!(command_output(false, &ok("listing")).unwrap(), None);
    assert!(matches!(command_output(false, &failed("", "")), Err(RepoError::CommandFailed { .. })));
    let err = command_output(true, &ProcessOutcome::Exited {
        success: false,
        stdout: vec![0xff],
        stderr: vec![0xff],
    })
    .unwrap_err();
    assert_eq!(err.message(), "git ls-files failed:\nstderr:\n<invalid utf8>\nstdout:\n<invalid utf8>");
}
