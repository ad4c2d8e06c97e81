//! The fetch of one device, step by step, and what a run over all devices
//! comes to. Nothing here runs a script or writes a file: each step takes what
//! the caller found and says what is to be done next.

use crate::devices::{
    dump_of, fetched, filter_dump, raw_dump, rules_for, DeviceConfig, DumpError, DumpErrorView,
    FetchErrorView,
};
use crate::filter::{optional_rules, CompiledFilter, Filtered, FilteredView, Rules};
use crate::process::{text_of, Outcome, ProcessOutcome};
use crate::repo::{RepoError, RepoErrorView};
use crate::text::{optional_text, texts};
use vstd::prelude::*;
use vstd::string::StringExecFns;

verus! {

/// Why the archive file of a device was not brought up to date.
#[derive(Debug)]
pub enum UnitError {
    /// The archive directory does not exist.
    StateDirMissing { state_dir: String },
    /// No filtered dump could be made.
    Dump(DumpError),
    /// The dump could not be written.
    Persistence { path: String, reason: String },
    /// The fetch did not run to its end.
    Aborted { reason: String },
}

/// A `UnitError` as plain values.
pub enum UnitErrorView {
    StateDirMissing { state_dir: Seq<char> },
    Dump(DumpErrorView),
    Persistence { path: Seq<char>, reason: Seq<char> },
    Aborted { reason: Seq<char> },
}

impl View for UnitError {
    type V = UnitErrorView;

    open spec fn view(&self) -> UnitErrorView {
        match *self {
            UnitError::StateDirMissing { state_dir } => UnitErrorView::StateDirMissing {
                state_dir: state_dir@,
            },
            UnitError::Dump(e) => UnitErrorView::Dump(e@),
            UnitError::Persistence { path, reason } => UnitErrorView::Persistence {
                path: path@,
                reason: reason@,
            },
            UnitError::Aborted { reason } => UnitErrorView::Aborted { reason: reason@ },
        }
    }
}

impl UnitErrorView {
    /// The error in words.
    pub open spec fn message(self) -> Seq<char> {
        match self {
            UnitErrorView::StateDirMissing { state_dir } => "state_dir "@ + state_dir
                + " does not exist"@,
            UnitErrorView::Dump(e) => e.message(),
            UnitErrorView::Persistence { path, reason } => reason,
            UnitErrorView::Aborted { reason } => "async task failed: "@ + reason,
        }
    }
}

impl UnitError {
    /// Words the error.
    pub fn message(&self) -> (text: String)
        ensures
            text@ == self@.message(),
    {
        match self {
            UnitError::StateDirMissing { state_dir } => {
                let mut text = "state_dir ".to_owned();
                text.append(state_dir.as_str());
                text.append(" does not exist");
                text
            },
            UnitError::Dump(e) => e.message(),
            UnitError::Persistence { path: _, reason } => reason.clone(),
            UnitError::Aborted { reason } => {
                let mut text = "async task failed: ".to_owned();
                text.append(reason.as_str());
                text
            },
        }
    }
}

/// A script that is to be run for a device, and what is needed to go on once
/// it is over.
#[derive(Debug)]
pub struct Launch {
    /// the expect script
    pub script_path: String,
    /// its arguments
    pub args: Vec<String>,
    /// the device's filter, compiled
    pub filter: Option<CompiledFilter>,
    /// the device's file in the archive
    pub dump_file: String,
}

/// A `Launch` as plain values.
pub struct LaunchView {
    pub script_path: Seq<char>,
    pub args: Seq<Seq<char>>,
    pub rules: Option<Rules>,
    pub dump_file: Seq<char>,
}

impl View for Launch {
    type V = LaunchView;

    open spec fn view(&self) -> LaunchView {
        LaunchView {
            script_path: self.script_path@,
            args: texts(self.args@),
            rules: optional_rules(self.filter),
            dump_file: self.dump_file@,
        }
    }
}

/// A dump that is to be written to a device's file in the archive.
#[derive(Debug)]
pub struct DumpFile {
    pub path: String,
    pub dump: Filtered,
}

/// A `DumpFile` as plain values.
pub struct DumpFileView {
    pub path: Seq<char>,
    pub dump: FilteredView,
}

impl View for DumpFile {
    type V = DumpFileView;

    open spec fn view(&self) -> DumpFileView {
        DumpFileView { path: self.path@, dump: self.dump@ }
    }
}

/// How the fetch of a device starts: with an error where the archive directory
/// is missing or a pattern of the device's filter does not compile, in that
/// order; else with the launch of the expect script of the device's model.
pub open spec fn prepared(
    device: DeviceConfig,
    scripts_dir: Seq<char>,
    state_dir: Seq<char>,
    state_dir_exists: bool,
) -> Result<LaunchView, UnitErrorView> {
    if !state_dir_exists {
        Err(UnitErrorView::StateDirMissing { state_dir })
    } else {
        match rules_for(device.filter_config) {
            Err(e) => Err(UnitErrorView::Dump(DumpErrorView::Pattern(e))),
            Ok(rules) => Ok(
                LaunchView {
                    script_path: device.script_path_in(scripts_dir),
                    args: device.expect_args(),
                    rules,
                    dump_file: device.dump_path(state_dir),
                },
            ),
        }
    }
}

/// What is to be written once the script is over: its output, filtered if the
/// device has a filter, to the device's file; or the error of the run.
pub open spec fn finished(launch: LaunchView, outcome: Outcome) -> Result<
    DumpFileView,
    UnitErrorView,
> {
    match fetched(launch.script_path, outcome) {
        Err(e) => Err(UnitErrorView::Dump(DumpErrorView::Fetch(e))),
        Ok(raw) => Ok(DumpFileView { path: launch.dump_file, dump: dump_of(launch.rules, raw) }),
    }
}

/// How the fetch ends once the file was written, or was not.
pub open spec fn persisted(file: DumpFileView, write_error: Option<Seq<char>>) -> Result<
    (),
    UnitErrorView,
> {
    match write_error {
        None => Ok(()),
        Some(reason) => Err(UnitErrorView::Persistence { path: file.path, reason }),
    }
}

/// Starts the fetch of `device`'s running configuration: says which script is
/// to be run with which arguments, or why none is run.
pub fn update_device_config_file(
    device: DeviceConfig,
    expect_scripts_dir: &str,
    state_dir: &str,
    state_dir_exists: bool,
) -> (r: Result<Launch, UnitError>)
    ensures
        match r {
            Ok(launch) => prepared(device, expect_scripts_dir@, state_dir@, state_dir_exists)
                == Ok::<LaunchView, UnitErrorView>(launch@),
            Err(e) => prepared(device, expect_scripts_dir@, state_dir@, state_dir_exists) == Err::<
                LaunchView,
                UnitErrorView,
            >(e@),
        },
{
    let dump_file = device.to_config_dump_path(state_dir);
    if !state_dir_exists {
        return Err(UnitError::StateDirMissing { state_dir: state_dir.to_owned() });
    }
    let script_path = device.script_path(expect_scripts_dir);
    let filter = match device.to_filter() {
        Ok(filter) => filter,
        Err(e) => {
            return Err(UnitError::Dump(DumpError::Pattern(e)));
        },
    };
    Ok(Launch { script_path, args: device.into_expect_args(), filter, dump_file })
}

impl Launch {
    /// Takes how the script ended, and says what is to be written to the
    /// device's file, or why nothing is.
    pub fn finish(self, outcome: &ProcessOutcome) -> (r: Result<DumpFile, UnitError>)
        ensures
            match r {
                Ok(file) => finished(self@, outcome@) == Ok::<DumpFileView, UnitErrorView>(file@),
                Err(e) => finished(self@, outcome@) == Err::<DumpFileView, UnitErrorView>(e@),
            },
    {
        match raw_dump(self.script_path.as_str(), outcome) {
            Ok(raw) => Ok(DumpFile { path: self.dump_file, dump: filter_dump(&self.filter, raw) }),
            Err(e) => Err(UnitError::Dump(DumpError::Fetch(e))),
        }
    }
}

impl DumpFile {
    /// Takes the error of the write, if there was one, and says how the fetch
    /// ended.
    pub fn written(self, write_error: Option<String>) -> (r: Result<(), UnitError>)
        ensures
            match r {
                Ok(_) => persisted(self@, optional_text(write_error)) == Ok::<(), UnitErrorView>(
                    (),
                ),
                Err(e) => persisted(self@, optional_text(write_error)) == Err::<
                    (),
                    UnitErrorView,
                >(e@),
            },
    {
        match write_error {
            None => Ok(()),
            Some(reason) => Err(UnitError::Persistence { path: self.path, reason }),
        }
    }
}

/// Gives each device its number in the list, counted from one.
pub fn number_devices(devices: Vec<DeviceConfig>) -> (numbered: Vec<(usize, DeviceConfig)>)
    ensures
        numbered.len() == devices.len(),
        forall|i: int|
            0 <= i < devices.len() ==> #[trigger] numbered[i] == ((i + 1) as usize, devices[i]),
{
    let mut numbered: Vec<(usize, DeviceConfig)> = Vec::new();
    for device in it: devices
        invariant
            it.seq() == devices@,
            numbered.len() == it.index(),
            forall|i: int|
                0 <= i < numbered.len() ==> #[trigger] numbered[i] == (
                    (i + 1) as usize,
                    devices[i],
                ),
    {
        assert(numbered.len() < devices.len());
        let nr: usize = numbered.len() + 1;
        numbered.push((nr, device));
    }
    numbered
}

/// Tells whether the fetch of any device failed.
pub fn any_failed(results: &Vec<Result<(), UnitError>>) -> (failed: bool)
    ensures
        failed == exists|i: int| 0 <= i < results.len() && (#[trigger] results[i]) is Err,
{
    let mut i: usize = 0;
    while i < results.len()
        invariant
            i <= results.len(),
            forall|j: int| 0 <= j < i ==> (#[trigger] results[j]) is Ok,
        decreases results.len() - i,
    {
        if results[i].is_err() {
            return true;
        }
        i += 1;
    }
    false
}

/// Why a run as a whole failed.
#[derive(Debug)]
pub enum RunError {
    /// The archive could not be committed.
    Repo(RepoError),
    /// The fetch of a device failed.
    TasksFailed,
}

/// A `RunError` as plain values.
pub enum RunErrorView {
    Repo(RepoErrorView),
    TasksFailed,
}

impl View for RunError {
    type V = RunErrorView;

    open spec fn view(&self) -> RunErrorView {
        match *self {
            RunError::Repo(e) => RunErrorView::Repo(e@),
            RunError::TasksFailed => RunErrorView::TasksFailed,
        }
    }
}

impl RunErrorView {
    /// The error in words.
    pub open spec fn message(self) -> Seq<char> {
        match self {
            RunErrorView::Repo(e) => e.message(),
            RunErrorView::TasksFailed => "not all tasks succeeded"@,
        }
    }
}

impl RunError {
    /// Words the error.
    pub fn message(&self) -> (text: String)
        ensures
            text@ == self@.message(),
    {
        match self {
            RunError::Repo(e) => e.message(),
            RunError::TasksFailed => "not all tasks succeeded".to_owned(),
        }
    }
}

/// How the committer ended, as plain values.
pub open spec fn committed(repo: Result<(), RepoError>) -> Result<(), RepoErrorView> {
    match repo {
        Ok(_) => Ok(()),
        Err(e) => Err(e@),
    }
}

/// How a run ends: with the committer's error if it has one, else with a
/// failure if the fetch of any device failed, else well.
pub open spec fn run_outcome(tasks_failed: bool, repo: Result<(), RepoErrorView>) -> Result<
    (),
    RunErrorView,
> {
    match repo {
        Err(e) => Err(RunErrorView::Repo(e)),
        Ok(_) => if tasks_failed {
            Err(RunErrorView::TasksFailed)
        } else {
            Ok(())
        },
    }
}

/// Tells how a run ended, from whether the fetch of any device failed and how
/// the committer ended.
pub fn run_result(tasks_failed: bool, repo: Result<(), RepoError>) -> (r: Result<(), RunError>)
    ensures
        match r {
            Ok(_) => run_outcome(tasks_failed, committed(repo)) == Ok::<(), RunErrorView>(()),
            Err(e) => run_outcome(tasks_failed, committed(repo)) == Err::<(), RunErrorView>(e@),
        },
{
    match repo {
        Err(e) => Err(RunError::Repo(e)),
        Ok(_) => if tasks_failed {
            Err(RunError::TasksFailed)
        } else {
            Ok(())
        },
    }
}

/// The two steps of a fetch come to the device's filtered dump: what is to be
/// written is what `filtered_dump` says of the device and of how its script
/// ended, and it goes to the device's file in the archive.
pub proof fn law_fetch_writes_filtered_dump(
    device: DeviceConfig,
    scripts_dir: Seq<char>,
    state_dir: Seq<char>,
    outcome: Outcome,
)
    ensures
        match prepared(device, scripts_dir, state_dir, true) {
            Err(e) => device.filtered_dump(scripts_dir, outcome) == Err::<
                FilteredView,
                DumpErrorView,
            >(e->Dump_0),
            Ok(launch) => match finished(launch, outcome) {
                Ok(file) => file.path == device.dump_path(state_dir) && device.filtered_dump(
                    scripts_dir,
                    outcome,
                ) == Ok::<FilteredView, DumpErrorView>(file.dump),
                Err(e) => device.filtered_dump(scripts_dir, outcome) == Err::<
                    FilteredView,
                    DumpErrorView,
                >(e->Dump_0),
            },
        },
{
}

/// A script that fails stops the fetch of its own device and of no other:
/// where the scripts of the other devices exit with success and write UTF-8,
/// each of them has its dump written to its own file, whatever the one script
/// did.
pub proof fn law_failure_stays_with_its_device(
    launches: Seq<LaunchView>,
    outcomes: Seq<Outcome>,
    failing: int,
)
    requires
        launches.len() == outcomes.len(),
        0 <= failing < launches.len(),
        outcomes[failing] matches Outcome::Exited { success, .. } && !success,
        forall|i: int|
            0 <= i < outcomes.len() && i != failing ==> (#[trigger] outcomes[i] matches Outcome::Exited {
                success,
                stdout,
                ..
            } && success && text_of(stdout) is Some),
    ensures
        finished(launches[failing], outcomes[failing]) matches Err(
            UnitErrorView::Dump(DumpErrorView::Fetch(FetchErrorView::ScriptFailed { path, .. })),
        ) && path == launches[failing].script_path,
        forall|i: int|
            0 <= i < launches.len() && i != failing ==> (#[trigger] finished(
                launches[i],
                outcomes[i],
            ) matches Ok(file) && file.path == launches[i].dump_file && file.dump == dump_of(
                launches[i].rules,
                text_of(outcomes[i]->stdout)->0,
            )),
{
    assert forall|i: int| 0 <= i < launches.len() && i != failing implies (#[trigger] finished(
        launches[i],
        outcomes[i],
    ) matches Ok(file) && file.path == launches[i].dump_file && file.dump == dump_of(
        launches[i].rules,
        text_of(outcomes[i]->stdout)->0,
    )) by {
        assert(outcomes[i] is Exited);
    }
}

} // verus!
