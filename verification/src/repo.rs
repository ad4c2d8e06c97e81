//! Committing the archive: which git commands are run, in which order, and
//! when the run stops. Nothing here runs a command. `update_git_repo` hands out
//! the first one; the caller runs it and hands how it ended to `advance`, which
//! hands out the next, until there is none.

use crate::process::{
    decode, decode_or_placeholder, text_of, text_or_placeholder, Outcome, ProcessOutcome,
};
use crate::text::{lines, split_lines, texts};
use std::collections::VecDeque;
use vstd::prelude::*;
use vstd::string::StringExecFns;

verus! {

/// One call of git: `git <subcmd> <args..>`, run in `workdir`.
#[derive(Debug)]
pub struct GitCommand {
    pub subcmd: String,
    pub workdir: String,
    pub args: Vec<String>,
    /// whether what the command writes to its standard output is wanted
    pub with_output: bool,
}

/// A `GitCommand` as plain values.
pub struct GitCommandView {
    pub subcmd: Seq<char>,
    pub workdir: Seq<char>,
    pub args: Seq<Seq<char>>,
    pub with_output: bool,
}

impl View for GitCommand {
    type V = GitCommandView;

    open spec fn view(&self) -> GitCommandView {
        GitCommandView {
            subcmd: self.subcmd@,
            workdir: self.workdir@,
            args: texts(self.args@),
            with_output: self.with_output,
        }
    }
}

/// Why the archive was not committed.
#[derive(Debug)]
pub enum RepoError {
    /// The archive directory does not exist.
    StateDirMissing { state_dir: String },
    /// git could not be run.
    LaunchFailed { reason: String },
    /// A git command exited with a failure status.
    CommandFailed { stderr: String, stdout: String },
    /// A git command whose output was wanted did not write UTF-8.
    InvalidOutput,
}

/// A `RepoError` as plain values.
pub enum RepoErrorView {
    StateDirMissing { state_dir: Seq<char> },
    LaunchFailed { reason: Seq<char> },
    CommandFailed { stderr: Seq<char>, stdout: Seq<char> },
    InvalidOutput,
}

impl View for RepoError {
    type V = RepoErrorView;

    open spec fn view(&self) -> RepoErrorView {
        match *self {
            RepoError::StateDirMissing { state_dir } => RepoErrorView::StateDirMissing {
                state_dir: state_dir@,
            },
            RepoError::LaunchFailed { reason } => RepoErrorView::LaunchFailed { reason: reason@ },
            RepoError::CommandFailed { stderr, stdout } => RepoErrorView::CommandFailed {
                stderr: stderr@,
                stdout: stdout@,
            },
            RepoError::InvalidOutput => RepoErrorView::InvalidOutput,
        }
    }
}

impl RepoErrorView {
    /// The error in words.
    pub open spec fn message(self) -> Seq<char> {
        match self {
            RepoErrorView::StateDirMissing { state_dir } => "state_dir "@ + state_dir
                + " does not exist"@,
            RepoErrorView::LaunchFailed { reason } => "git command failed: "@ + reason,
            RepoErrorView::CommandFailed { stderr, stdout } => "git ls-files failed:\nstderr:\n"@
                + stderr + "\nstdout:\n"@ + stdout,
            RepoErrorView::InvalidOutput => "git did not write valid UTF-8"@,
        }
    }
}

impl RepoError {
    /// Words the error.
    pub fn message(&self) -> (text: String)
        ensures
            text@ == self@.message(),
    {
        match self {
            RepoError::StateDirMissing { state_dir } => {
                let mut text = "state_dir ".to_owned();
                text.append(state_dir.as_str());
                text.append(" does not exist");
                text
            },
            RepoError::LaunchFailed { reason } => {
                let mut text = "git command failed: ".to_owned();
                text.append(reason.as_str());
                text
            },
            RepoError::CommandFailed { stderr, stdout } => {
                let mut text = "git ls-files failed:\nstderr:\n".to_owned();
                text.append(stderr.as_str());
                text.append("\nstdout:\n");
                text.append(stdout.as_str());
                text
            },
            RepoError::InvalidOutput => "git did not write valid UTF-8".to_owned(),
        }
    }
}

/// What a git command gives, by how it ended: an error if it could not be run
/// or exited with a failure status; else its standard output as text where
/// that is wanted, and nothing where it is not.
pub open spec fn command_result(with_output: bool, outcome: Outcome) -> Result<
    Option<Seq<char>>,
    RepoErrorView,
> {
    match outcome {
        Outcome::LaunchFailed { reason } => Err(RepoErrorView::LaunchFailed { reason }),
        Outcome::Exited { success, stdout, stderr } => if !success {
            Err(
                RepoErrorView::CommandFailed {
                    stderr: text_or_placeholder(stderr),
                    stdout: text_or_placeholder(stdout),
                },
            )
        } else if with_output {
            match text_of(stdout) {
                Some(text) => Ok(Some(text)),
                None => Err(RepoErrorView::InvalidOutput),
            }
        } else {
            Ok(None)
        },
    }
}

/// The command that lists the files of the archive that are modified or new,
/// and not ignored.
pub open spec fn list_command(dir: Seq<char>) -> GitCommandView {
    GitCommandView {
        subcmd: "ls-files"@,
        workdir: dir,
        args: seq!["--modified"@, "--others"@, "--exclude-standard"@],
        with_output: true,
    }
}

/// The command that stages `file`.
pub open spec fn add_command(dir: Seq<char>, file: Seq<char>) -> GitCommandView {
    GitCommandView { subcmd: "add"@, workdir: dir, args: seq![file], with_output: false }
}

/// The command that commits what is staged, with the message `Update <file>`.
pub open spec fn commit_command(dir: Seq<char>, file: Seq<char>) -> GitCommandView {
    GitCommandView {
        subcmd: "commit"@,
        workdir: dir,
        args: seq!["--message"@, "Update "@ + file],
        with_output: false,
    }
}

/// The command that pushes to the remote that the current branch tracks.
pub open spec fn push_command(dir: Seq<char>) -> GitCommandView {
    GitCommandView { subcmd: "push"@, workdir: dir, args: Seq::empty(), with_output: false }
}

/// The commands that record `files`: for each file in turn one that stages it
/// and one that commits it; then, if `push` is set, one that pushes.
pub open spec fn commit_plan(dir: Seq<char>, files: Seq<Seq<char>>, push: bool) -> Seq<
    GitCommandView,
> {
    Seq::new(
        2 * files.len() + if push {
            1nat
        } else {
            0nat
        },
        |k: int|
            if k >= 2 * files.len() {
                push_command(dir)
            } else if k % 2 == 0 {
                add_command(dir, files[k / 2])
            } else {
                commit_command(dir, files[k / 2])
            },
    )
}

/// The views of a sequence of commands, in order.
pub open spec fn command_views(commands: Seq<GitCommand>) -> Seq<GitCommandView> {
    commands.map_values(|c: GitCommand| c@)
}

/// Where a run of the committer stands.
#[derive(Debug)]
pub enum Stage {
    /// The command that lists the changed files is running.
    Listing,
    /// A command of the plan is running.
    Committing,
    /// Every command has run.
    Done,
    /// A command failed, or the archive is missing: nothing more is run.
    Failed(RepoError),
}

/// A `Stage` as plain values.
pub enum StageView {
    Listing,
    Committing,
    Done,
    Failed(RepoErrorView),
}

impl View for Stage {
    type V = StageView;

    open spec fn view(&self) -> StageView {
        match *self {
            Stage::Listing => StageView::Listing,
            Stage::Committing => StageView::Committing,
            Stage::Done => StageView::Done,
            Stage::Failed(e) => StageView::Failed(e@),
        }
    }
}

/// A run of the committer: where it stands, and the commands that it has yet
/// to hand out.
#[derive(Debug)]
pub struct RepoUpdate {
    pub state_dir: String,
    pub push: bool,
    pub stage: Stage,
    pub pending: VecDeque<GitCommand>,
}

/// A `RepoUpdate` as plain values.
pub struct RepoState {
    pub state_dir: Seq<char>,
    pub push: bool,
    pub stage: StageView,
    pub pending: Seq<GitCommandView>,
}

impl View for RepoUpdate {
    type V = RepoState;

    open spec fn view(&self) -> RepoState {
        RepoState {
            state_dir: self.state_dir@,
            push: self.push,
            stage: self.stage@,
            pending: command_views(self.pending@),
        }
    }
}

/// The run has ended: no command is running and none will be handed out.
pub open spec fn is_over(s: RepoState) -> bool {
    s.stage is Done || s.stage is Failed
}

/// The state in which a run starts, and its first command: the listing of the
/// changed files, or none where the archive directory is missing.
pub open spec fn start(dir: Seq<char>, push: bool, dir_exists: bool) -> (
    RepoState,
    Option<GitCommandView>,
) {
    if dir_exists {
        (
            RepoState {
                state_dir: dir,
                push,
                stage: StageView::Listing,
                pending: Seq::empty(),
            },
            Some(list_command(dir)),
        )
    } else {
        (
            RepoState {
                state_dir: dir,
                push,
                stage: StageView::Failed(RepoErrorView::StateDirMissing { state_dir: dir }),
                pending: Seq::empty(),
            },
            None,
        )
    }
}

/// The run stops on an error.
pub open spec fn fail(s: RepoState, e: RepoErrorView) -> (RepoState, Option<GitCommandView>) {
    (RepoState { stage: StageView::Failed(e), ..s }, None)
}

/// The run goes on to the next pending command, or is done where none is left.
pub open spec fn issue_next(s: RepoState) -> (RepoState, Option<GitCommandView>) {
    if s.pending.len() == 0 {
        (RepoState { stage: StageView::Done, ..s }, None)
    } else {
        (
            RepoState { stage: StageView::Committing, pending: s.pending.skip(1), ..s },
            Some(s.pending[0]),
        )
    }
}

/// What follows when the running command ended with `outcome`: the next state
/// and the next command to run, if any. A run that is over stays as it is. A
/// command that failed ends the run. The listing, once it succeeded, sets the
/// plan for the files that it names, one on each line.
pub open spec fn step(s: RepoState, outcome: Outcome) -> (RepoState, Option<GitCommandView>) {
    match s.stage {
        StageView::Done => (s, None),
        StageView::Failed(_) => (s, None),
        StageView::Listing => match command_result(true, outcome) {
            Ok(Some(listing)) => issue_next(
                RepoState {
                    pending: commit_plan(s.state_dir, split_lines(listing), s.push),
                    ..s
                },
            ),
            Ok(None) => fail(s, RepoErrorView::InvalidOutput),
            Err(e) => fail(s, e),
        },
        StageView::Committing => match command_result(false, outcome) {
            Ok(_) => issue_next(s),
            Err(e) => fail(s, e),
        },
    }
}

/// Describes a call of git with `subcmd` and `args`, to be run in `workdir`.
pub fn git_subcommand(subcmd: &str, workdir: &str, args: Vec<String>, with_output: bool) -> (c:
    GitCommand)
    ensures
        c@ == (GitCommandView {
            subcmd: subcmd@,
            workdir: workdir@,
            args: texts(args@),
            with_output,
        }),
{
    GitCommand { subcmd: subcmd.to_owned(), workdir: workdir.to_owned(), args, with_output }
}

/// Tells what a git command gave, by how it ended.
pub fn command_output(with_output: bool, outcome: &ProcessOutcome) -> (r: Result<
    Option<String>,
    RepoError,
>)
    ensures
        match r {
            Ok(Some(out)) => command_result(with_output, outcome@) == Ok::<
                Option<Seq<char>>,
                RepoErrorView,
            >(Some(out@)),
            Ok(None) => command_result(with_output, outcome@) == Ok::<
                Option<Seq<char>>,
                RepoErrorView,
            >(None),
            Err(e) => command_result(with_output, outcome@) == Err::<
                Option<Seq<char>>,
                RepoErrorView,
            >(e@),
        },
{
    match outcome {
        ProcessOutcome::LaunchFailed { reason } => Err(
            RepoError::LaunchFailed { reason: reason.clone() },
        ),
        ProcessOutcome::Exited { success, stdout, stderr } => {
            if !*success {
                Err(
                    RepoError::CommandFailed {
                        stderr: decode_or_placeholder(stderr.as_slice()),
                        stdout: decode_or_placeholder(stdout.as_slice()),
                    },
                )
            } else if with_output {
                match decode(stdout.as_slice()) {
                    Some(out) => Ok(Some(out)),
                    None => Err(RepoError::InvalidOutput),
                }
            } else {
                Ok(None)
            }
        },
    }
}

/// Builds the command that lists the changed files of the archive.
pub fn list_changed_files(state_dir: &str) -> (c: GitCommand)
    ensures
        c@ == list_command(state_dir@),
{
    let mut args: Vec<String> = Vec::new();
    args.push("--modified".to_owned());
    args.push("--others".to_owned());
    args.push("--exclude-standard".to_owned());
    let c = git_subcommand("ls-files", state_dir, args, true);
    assert(c@.args =~= list_command(state_dir@).args);
    c
}

/// Builds the command that stages `file`.
pub fn stage_file(state_dir: &str, file: &str) -> (c: GitCommand)
    ensures
        c@ == add_command(state_dir@, file@),
{
    let mut args: Vec<String> = Vec::new();
    args.push(file.to_owned());
    let c = git_subcommand("add", state_dir, args, false);
    assert(c@.args =~= add_command(state_dir@, file@).args);
    c
}

/// Builds the command that commits `file`.
pub fn commit_file(state_dir: &str, file: &str) -> (c: GitCommand)
    ensures
        c@ == commit_command(state_dir@, file@),
{
    let mut message = "Update ".to_owned();
    message.append(file);
    let mut args: Vec<String> = Vec::new();
    args.push("--message".to_owned());
    args.push(message);
    let c = git_subcommand("commit", state_dir, args, false);
    assert(c@.args =~= commit_command(state_dir@, file@).args);
    c
}

/// Builds the command that pushes.
pub fn push_commits(state_dir: &str) -> (c: GitCommand)
    ensures
        c@ == push_command(state_dir@),
{
    let c = git_subcommand("push", state_dir, Vec::new(), false);
    assert(c@.args =~= push_command(state_dir@).args);
    c
}

/// Builds the commands that record `files`, in the order in which they run.
pub fn plan_commits(state_dir: &str, files: &Vec<String>, push: bool) -> (plan: VecDeque<
    GitCommand,
>)
    ensures
        command_views(plan@) == commit_plan(state_dir@, texts(files@), push),
{
    let ghost whole = commit_plan(state_dir@, texts(files@), push);
    let mut plan: VecDeque<GitCommand> = VecDeque::new();
    let mut i: usize = 0;
    while i < files.len()
        invariant
            i <= files.len(),
            whole == commit_plan(state_dir@, texts(files@), push),
            command_views(plan@) == whole.take(2 * i),
        decreases files.len() - i,
    {
        let file = files[i].as_str();
        let add = stage_file(state_dir, file);
        let commit = commit_file(state_dir, file);
        proof {
            let k = 2 * i as int;
            assert(texts(files@)[i as int] == file@);
            assert(k % 2 == 0 && k / 2 == i && (k + 1) % 2 == 1 && (k + 1) / 2 == i);
            assert(whole[k] == add@);
            assert(whole[k + 1] == commit@);
            assert(command_views(plan@.push(add).push(commit)) =~= command_views(plan@).push(
                add@,
            ).push(commit@));
            assert(whole.take(k + 2) =~= whole.take(k).push(whole[k]).push(whole[k + 1]));
        }
        plan.push_back(add);
        plan.push_back(commit);
        i += 1;
    }
    if push {
        let last = push_commits(state_dir);
        proof {
            let k = 2 * i as int;
            assert(whole[k] == last@);
            assert(command_views(plan@.push(last)) =~= command_views(plan@).push(last@));
            assert(whole =~= whole.take(k).push(whole[k]));
        }
        plan.push_back(last);
    } else {
        assert(whole.take(2 * i) =~= whole);
    }
    plan
}

/// Starts a run of the committer on the archive at `state_dir`: hands out the
/// command that lists the changed files, or fails at once where the directory
/// does not exist. Pushing is left out if `no_push` is set.
pub fn update_git_repo(state_dir: &str, no_push: bool, state_dir_exists: bool) -> (r: (
    RepoUpdate,
    Option<GitCommand>,
))
    ensures
        r.0@ == start(state_dir@, !no_push, state_dir_exists).0,
        match r.1 {
            Some(c) => start(state_dir@, !no_push, state_dir_exists).1 == Some(c@),
            None => start(state_dir@, !no_push, state_dir_exists).1 is None,
        },
{
    if state_dir_exists {
        let update = RepoUpdate {
            state_dir: state_dir.to_owned(),
            push: !no_push,
            stage: Stage::Listing,
            pending: VecDeque::new(),
        };
        assert(update@.pending =~= Seq::empty());
        (update, Some(list_changed_files(state_dir)))
    } else {
        let update = RepoUpdate {
            state_dir: state_dir.to_owned(),
            push: !no_push,
            stage: Stage::Failed(RepoError::StateDirMissing { state_dir: state_dir.to_owned() }),
            pending: VecDeque::new(),
        };
        assert(update@.pending =~= Seq::empty());
        (update, None)
    }
}

impl RepoUpdate {
    /// Stops the run on an error.
    fn failed(self, e: RepoError) -> (r: (RepoUpdate, Option<GitCommand>))
        ensures
            r.0@ == fail(self@, e@).0,
            r.1 is None,
    {
        (
            RepoUpdate {
                state_dir: self.state_dir,
                push: self.push,
                stage: Stage::Failed(e),
                pending: self.pending,
            },
            None,
        )
    }

    /// Hands out the next pending command, or ends the run where none is left.
    fn next(self) -> (r: (RepoUpdate, Option<GitCommand>))
        ensures
            r.0@ == issue_next(self@).0,
            match r.1 {
                Some(c) => issue_next(self@).1 == Some(c@),
                None => issue_next(self@).1 is None,
            },
    {
        let mut pending = self.pending;
        match pending.pop_front() {
            Some(c) => {
                let update = RepoUpdate {
                    state_dir: self.state_dir,
                    push: self.push,
                    stage: Stage::Committing,
                    pending,
                };
                assert(update@.pending =~= self@.pending.skip(1));
                (update, Some(c))
            },
            None => {
                let update = RepoUpdate {
                    state_dir: self.state_dir,
                    push: self.push,
                    stage: Stage::Done,
                    pending,
                };
                (update, None)
            },
        }
    }

    /// Takes how the running command ended, and hands out the next command to
    /// run. `None` says that the run is over.
    pub fn advance(self, outcome: &ProcessOutcome) -> (r: (RepoUpdate, Option<GitCommand>))
        ensures
            r.0@ == step(self@, outcome@).0,
            match r.1 {
                Some(c) => step(self@, outcome@).1 == Some(c@),
                None => step(self@, outcome@).1 is None,
            },
    {
        match self.stage {
            Stage::Done => (self, None),
            Stage::Failed(_) => (self, None),
            Stage::Listing => {
                match command_output(true, outcome) {
                    Ok(Some(out)) => {
                        let files = lines(out.as_str());
                        let pending = plan_commits(self.state_dir.as_str(), &files, self.push);
                        let update = RepoUpdate {
                            state_dir: self.state_dir,
                            push: self.push,
                            stage: Stage::Listing,
                            pending,
                        };
                        update.next()
                    },
                    Ok(None) => self.failed(RepoError::InvalidOutput),
                    Err(e) => self.failed(e),
                }
            },
            Stage::Committing => {
                match command_output(false, outcome) {
                    Ok(_) => self.next(),
                    Err(e) => self.failed(e),
                }
            },
        }
    }

    /// Tells how the run ended, or `None` while it is not over.
    pub fn into_result(self) -> (r: Option<Result<(), RepoError>>)
        ensures
            match r {
                None => !is_over(self@),
                Some(Ok(_)) => self@.stage is Done,
                Some(Err(e)) => self@.stage == StageView::Failed(e@),
            },
    {
        match self.stage {
            Stage::Done => Some(Ok(())),
            Stage::Failed(e) => Some(Err(e)),
            _ => None,
        }
    }
}

/// The process ran and exited with success.
pub open spec fn succeeded(outcome: Outcome) -> bool {
    outcome matches Outcome::Exited { success, .. } && success
}

/// The commands that are handed out while the commands of a run end with
/// `outcomes`, one after the other.
pub open spec fn issued(s: RepoState, outcomes: Seq<Outcome>) -> Seq<GitCommandView>
    decreases outcomes.len(),
{
    if outcomes.len() == 0 {
        Seq::empty()
    } else {
        let (next, command) = step(s, outcomes[0]);
        let rest = issued(next, outcomes.drop_first());
        match command {
            Some(c) => seq![c] + rest,
            None => rest,
        }
    }
}

/// The state of a run after its commands ended with `outcomes`, one after the
/// other.
pub open spec fn state_after(s: RepoState, outcomes: Seq<Outcome>) -> RepoState
    decreases outcomes.len(),
{
    if outcomes.len() == 0 {
        s
    } else {
        state_after(step(s, outcomes[0]).0, outcomes.drop_first())
    }
}

/// The plan holds, for each file in turn, the command that stages it and then
/// the command that commits it, and after them the push if one is asked for:
/// one commit for each file, and no other.
pub proof fn law_one_commit_per_file(dir: Seq<char>, files: Seq<Seq<char>>, push: bool)
    ensures
        ({
            let plan = commit_plan(dir, files, push);
            &&& plan.len() == 2 * files.len() + if push {
                1nat
            } else {
                0nat
            }
            &&& forall|i: int|
                0 <= i < files.len() ==> #[trigger] plan[2 * i] == add_command(dir, files[i])
                    && plan[2 * i + 1] == commit_command(dir, files[i])
            &&& forall|k: int|
                0 <= k < plan.len() ==> ((#[trigger] plan[k]).subcmd == "commit"@ <==> k < 2
                    * files.len() && k % 2 == 1)
            &&& push ==> plan.last() == push_command(dir)
        }),
{
    reveal_strlit("commit");
    reveal_strlit("add");
    reveal_strlit("push");
    let plan = commit_plan(dir, files, push);
    assert forall|i: int| 0 <= i < files.len() implies #[trigger] plan[2 * i] == add_command(
        dir,
        files[i],
    ) && plan[2 * i + 1] == commit_command(dir, files[i]) by {
        let k = 2 * i;
        assert(k % 2 == 0 && k / 2 == i && (k + 1) % 2 == 1 && (k + 1) / 2 == i);
    }
    assert forall|k: int| 0 <= k < plan.len() implies ((#[trigger] plan[k]).subcmd == "commit"@
        <==> k < 2 * files.len() && k % 2 == 1) by {
        assert("commit"@.len() == 6 && "add"@.len() == 3 && "push"@.len() == 4);
    }
}

/// Where the push is suppressed, no command of the plan is a push.
pub proof fn law_no_push_when_suppressed(dir: Seq<char>, files: Seq<Seq<char>>)
    ensures
        forall|k: int|
            0 <= k < commit_plan(dir, files, false).len() ==> (#[trigger] commit_plan(
                dir,
                files,
                false,
            )[k]).subcmd != "push"@,
{
    reveal_strlit("commit");
    reveal_strlit("add");
    reveal_strlit("push");
    assert("commit"@.len() == 6 && "add"@.len() == 3 && "push"@.len() == 4);
}

/// A run hands out a command as long as it is not over, and none once it is.
pub proof fn law_no_command_means_over(s: RepoState, outcome: Outcome)
    ensures
        step(s, outcome).1 is None <==> is_over(step(s, outcome).0),
        forall|dir: Seq<char>, push: bool, dir_exists: bool|
            #![trigger start(dir, push, dir_exists)]
            start(dir, push, dir_exists).1 is None <==> is_over(start(dir, push, dir_exists).0),
{
}

/// Once a run is over, no command is handed out, whatever comes in.
pub proof fn law_nothing_runs_after_the_end(s: RepoState, outcomes: Seq<Outcome>)
    requires
        is_over(s),
    ensures
        issued(s, outcomes) == Seq::<GitCommandView>::empty(),
        state_after(s, outcomes) == s,
    decreases outcomes.len(),
{
    if outcomes.len() > 0 {
        law_nothing_runs_after_the_end(s, outcomes.drop_first());
    }
}

/// A command that fails ends the run: it is over from then on, with the error
/// of that command, and no command is handed out after it.
pub proof fn law_failure_stops_the_run(s: RepoState, failure: Outcome, later: Seq<Outcome>)
    requires
        !is_over(s),
        !succeeded(failure),
    ensures
        issued(s, seq![failure] + later) == Seq::<GitCommandView>::empty(),
        state_after(s, seq![failure] + later).stage is Failed,
        state_after(s, seq![failure] + later).stage->Failed_0 == command_result(
            s.stage is Listing,
            failure,
        )->Err_0,
{
    let outcomes = seq![failure] + later;
    assert(outcomes[0] == failure);
    assert(outcomes.drop_first() =~= later);
    law_nothing_runs_after_the_end(step(s, failure).0, later);
}

/// While the commands of the plan succeed, they are handed out in the order of
/// the plan, one for each command that ended; after the last one the run is
/// done.
pub proof fn law_success_follows_the_plan(s: RepoState, outcomes: Seq<Outcome>)
    requires
        s.stage is Committing,
        forall|i: int| 0 <= i < outcomes.len() ==> succeeded(#[trigger] outcomes[i]),
    ensures
        issued(s, outcomes) == if outcomes.len() <= s.pending.len() {
            s.pending.take(outcomes.len() as int)
        } else {
            s.pending
        },
        outcomes.len() > s.pending.len() ==> state_after(s, outcomes).stage is Done,
    decreases outcomes.len(),
{
    if outcomes.len() > 0 {
        let (next, command) = step(s, outcomes[0]);
        let rest = outcomes.drop_first();
        assert(succeeded(outcomes[0]));
        if s.pending.len() == 0 {
            law_nothing_runs_after_the_end(next, rest);
        } else {
            assert forall|i: int| 0 <= i < rest.len() implies succeeded(#[trigger] rest[i]) by {
                assert(rest[i] == outcomes[i + 1]);
            }
            law_success_follows_the_plan(next, rest);
            if outcomes.len() <= s.pending.len() {
                assert(issued(s, outcomes) =~= s.pending.take(outcomes.len() as int));
            } else {
                assert(issued(s, outcomes) =~= s.pending);
            }
        }
    } else {
        assert(s.pending.take(0) =~= Seq::<GitCommandView>::empty());
    }
}

/// A run on an archive that is there, whose listing names `files` and whose
/// commands all succeed, hands out the plan for `files`, and is then done: one
/// commit for each changed file, and a push only if it is not suppressed.
pub proof fn law_whole_run(
    dir: Seq<char>,
    push: bool,
    listed: Outcome,
    later: Seq<Outcome>,
)
    requires
        succeeded(listed),
        text_of(listed->stdout) is Some,
        forall|i: int| 0 <= i < later.len() ==> succeeded(#[trigger] later[i]),
        later.len() >= commit_plan(dir, split_lines(text_of(listed->stdout)->0), push).len(),
    ensures
        start(dir, push, true).1 == Some(list_command(dir)),
        issued(start(dir, push, true).0, seq![listed] + later) == commit_plan(
            dir,
            split_lines(text_of(listed->stdout)->0),
            push,
        ),
        state_after(start(dir, push, true).0, seq![listed] + later).stage is Done,
{
    let s = start(dir, push, true).0;
    let plan = commit_plan(dir, split_lines(text_of(listed->stdout)->0), push);
    let outcomes = seq![listed] + later;
    assert(outcomes[0] == listed);
    assert(outcomes.drop_first() =~= later);
    let (next, command) = step(s, listed);
    if plan.len() == 0 {
        law_nothing_runs_after_the_end(next, later);
        assert(issued(s, outcomes) =~= plan);
    } else {
        law_success_follows_the_plan(next, later);
        assert(plan =~= seq![plan[0]] + plan.skip(1));
        if later.len() <= next.pending.len() {
            assert(next.pending.take(later.len() as int) =~= next.pending);
        }
    }
}

} // verus!
