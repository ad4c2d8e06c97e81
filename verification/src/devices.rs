//! A device, the script that is run for it, and what is made of the script's
//! output.

use crate::filter::{
    compile_of, filtered, optional_rules, CompiledFilter, Filter, Filtered, FilteredView,
    PatternError, PatternErrorView, Rules,
};
use crate::process::{
    decode, decode_or_placeholder, text_of, text_or_placeholder, Outcome, ProcessOutcome,
};
use crate::text::texts;
use vstd::prelude::*;
use vstd::string::StringExecFns;
use vstd::utf8::{encode_utf8, valid_utf8};

verus! {

/// All that is configured for one device.
#[derive(Clone, Debug)]
pub struct DeviceConfig {
    /// host address (IP or hostname); also the name of the device's file in
    /// the archive
    pub host: String,
    /// device model; selects the expect script
    pub model: String,
    /// SSH user
    pub user: String,
    /// file that contains the SSH password
    pub password_file: String,
    /// SSH cipher
    pub cipher: Option<String>,
    /// SSH key exchange algorithm
    pub kexalgorithm: Option<String>,
    /// SSH host key algorithm
    pub hostkeyalgorithm: Option<String>,
    /// further parameters for the model's expect script
    pub extra_expect_params: Vec<String>,
    /// how the script's output is filtered, if at all
    pub filter_config: Option<Filter>,
}

/// Why no dump came from a device's script.
#[derive(Debug)]
pub enum FetchError {
    /// The script could not be run.
    LaunchFailed { path: String, reason: String },
    /// The script exited with a failure status.
    ScriptFailed { path: String, stderr: String },
    /// What the script wrote to its standard output is not UTF-8.
    InvalidOutput,
}

/// A `FetchError` as plain values.
pub enum FetchErrorView {
    LaunchFailed { path: Seq<char>, reason: Seq<char> },
    ScriptFailed { path: Seq<char>, stderr: Seq<char> },
    InvalidOutput,
}

impl View for FetchError {
    type V = FetchErrorView;

    open spec fn view(&self) -> FetchErrorView {
        match *self {
            FetchError::LaunchFailed { path, reason } => FetchErrorView::LaunchFailed {
                path: path@,
                reason: reason@,
            },
            FetchError::ScriptFailed { path, stderr } => FetchErrorView::ScriptFailed {
                path: path@,
                stderr: stderr@,
            },
            FetchError::InvalidOutput => FetchErrorView::InvalidOutput,
        }
    }
}

impl FetchErrorView {
    /// The error in words.
    pub open spec fn message(self) -> Seq<char> {
        match self {
            FetchErrorView::LaunchFailed { path, reason } => "failed to run expect script "@ + path
                + ": "@ + reason,
            FetchErrorView::ScriptFailed { path, stderr } => "expect script failed "@ + path
                + ":\n"@ + stderr,
            FetchErrorView::InvalidOutput => "expect script did not write valid UTF-8"@,
        }
    }
}

impl FetchError {
    /// Words the error.
    pub fn message(&self) -> (text: String)
        ensures
            text@ == self@.message(),
    {
        match self {
            FetchError::LaunchFailed { path, reason } => {
                let mut text = "failed to run expect script ".to_owned();
                text.append(path.as_str());
                text.append(": ");
                text.append(reason.as_str());
                text
            },
            FetchError::ScriptFailed { path, stderr } => {
                let mut text = "expect script failed ".to_owned();
                text.append(path.as_str());
                text.append(":\n");
                text.append(stderr.as_str());
                text
            },
            FetchError::InvalidOutput => "expect script did not write valid UTF-8".to_owned(),
        }
    }
}

/// Why there is no filtered dump of a device.
#[derive(Debug)]
pub enum DumpError {
    /// A pattern of the device's filter does not compile.
    Pattern(PatternError),
    /// The script gave no dump.
    Fetch(FetchError),
}

/// A `DumpError` as plain values.
pub enum DumpErrorView {
    Pattern(PatternErrorView),
    Fetch(FetchErrorView),
}

impl View for DumpError {
    type V = DumpErrorView;

    open spec fn view(&self) -> DumpErrorView {
        match *self {
            DumpError::Pattern(e) => DumpErrorView::Pattern(e@),
            DumpError::Fetch(e) => DumpErrorView::Fetch(e@),
        }
    }
}

impl DumpErrorView {
    /// The error in words.
    pub open spec fn message(self) -> Seq<char> {
        match self {
            DumpErrorView::Pattern(e) => e.message(),
            DumpErrorView::Fetch(e) => e.message(),
        }
    }
}

impl DumpError {
    /// Words the error.
    pub fn message(&self) -> (text: String)
        ensures
            text@ == self@.message(),
    {
        match self {
            DumpError::Pattern(e) => e.message(),
            DumpError::Fetch(e) => e.message(),
        }
    }
}

/// The one argument that an optional setting makes, or none.
pub open spec fn optional_arg(setting: Option<String>) -> Seq<Seq<char>> {
    match setting {
        Some(s) => seq![s@],
        None => Seq::empty(),
    }
}

/// The rules of an optional filter: none where no filter is configured, else
/// what the filter compiles to.
pub open spec fn rules_for(config: Option<Filter>) -> Result<Option<Rules>, PatternErrorView> {
    match config {
        None => Ok(None),
        Some(f) => match compile_of(f@) {
            Ok(rules) => Ok(Some(rules)),
            Err(e) => Err(e),
        },
    }
}

/// The raw dump that a run of the script at `path` gives: what it wrote to its
/// standard output, if it exited with success and wrote UTF-8.
pub open spec fn fetched(path: Seq<char>, outcome: Outcome) -> Result<Seq<char>, FetchErrorView> {
    match outcome {
        Outcome::LaunchFailed { reason } => Err(FetchErrorView::LaunchFailed { path, reason }),
        Outcome::Exited { success, stdout, stderr } => if !success {
            Err(FetchErrorView::ScriptFailed { path, stderr: text_or_placeholder(stderr) })
        } else {
            match text_of(stdout) {
                Some(text) => Ok(text),
                None => Err(FetchErrorView::InvalidOutput),
            }
        },
    }
}

/// What is archived of a raw dump: the dump itself where there are no rules,
/// else what the rules make of it.
pub open spec fn dump_of(rules: Option<Rules>, raw: Seq<char>) -> FilteredView {
    match rules {
        None => FilteredView { text: raw, nothing_left: false },
        Some(rules) => filtered(rules, raw),
    }
}

/// Tells what came of a run of the script at `script_path`: its standard
/// output as text, or why there is none.
pub fn raw_dump(script_path: &str, outcome: &ProcessOutcome) -> (r: Result<String, FetchError>)
    ensures
        match r {
            Ok(raw) => fetched(script_path@, outcome@) == Ok::<Seq<char>, FetchErrorView>(raw@),
            Err(e) => fetched(script_path@, outcome@) == Err::<Seq<char>, FetchErrorView>(e@),
        },
{
    match outcome {
        ProcessOutcome::LaunchFailed { reason } => Err(
            FetchError::LaunchFailed { path: script_path.to_owned(), reason: reason.clone() },
        ),
        ProcessOutcome::Exited { success, stdout, stderr } => {
            if !*success {
                Err(
                    FetchError::ScriptFailed {
                        path: script_path.to_owned(),
                        stderr: decode_or_placeholder(stderr.as_slice()),
                    },
                )
            } else {
                match decode(stdout.as_slice()) {
                    Some(raw) => Ok(raw),
                    None => Err(FetchError::InvalidOutput),
                }
            }
        },
    }
}

/// Applies the filter to a raw dump, if there is one.
pub fn filter_dump(filter: &Option<CompiledFilter>, raw: String) -> (out: Filtered)
    ensures
        out@ == dump_of(optional_rules(*filter), raw@),
{
    match filter {
        None => Filtered { text: raw, nothing_left: false },
        Some(f) => f.apply(raw.as_str()),
    }
}

impl DeviceConfig {
    /// The path of the device's file in the archive at `state_dir`.
    pub open spec fn dump_path(&self, state_dir: Seq<char>) -> Seq<char> {
        state_dir.push('/') + self.host@
    }

    /// The path of the expect script of the device's model in `scripts_dir`.
    pub open spec fn script_path_in(&self, scripts_dir: Seq<char>) -> Seq<char> {
        scripts_dir.push('/') + self.model@ + ".exp"@
    }

    /// The arguments of the expect script: user, password file and host; then
    /// key exchange algorithm, cipher and host key algorithm, each only if it
    /// is set; then the extra parameters.
    pub open spec fn expect_args(&self) -> Seq<Seq<char>> {
        seq![self.user@, self.password_file@, self.host@] + optional_arg(self.kexalgorithm)
            + optional_arg(self.cipher) + optional_arg(self.hostkeyalgorithm) + texts(
            self.extra_expect_params@,
        )
    }

    /// The filtered dump of the device, given how its script ended: the error
    /// of the filter's first bad pattern, else the error of the run, else the
    /// script's output, filtered if a filter is configured.
    pub open spec fn filtered_dump(&self, scripts_dir: Seq<char>, outcome: Outcome) -> Result<
        FilteredView,
        DumpErrorView,
    > {
        match rules_for(self.filter_config) {
            Err(e) => Err(DumpErrorView::Pattern(e)),
            Ok(rules) => match fetched(self.script_path_in(scripts_dir), outcome) {
                Err(e) => Err(DumpErrorView::Fetch(e)),
                Ok(raw) => Ok(dump_of(rules, raw)),
            },
        }
    }

    /// Builds the path of the file into which the device's dump is written.
    pub fn to_config_dump_path(&self, state_dir: &str) -> (path: String)
        ensures
            path@ == self.dump_path(state_dir@),
    {
        let mut path = state_dir.to_owned();
        path.push('/');
        path.append(self.host.as_str());
        path
    }

    /// Builds the path of the expect script for the device's model.
    pub fn script_path(&self, scripts_dir: &str) -> (path: String)
        ensures
            path@ == self.script_path_in(scripts_dir@),
    {
        let mut path = scripts_dir.to_owned();
        path.push('/');
        path.append(self.model.as_str());
        path.append(".exp");
        path
    }

    /// Builds the arguments that are passed to the device's expect script.
    pub fn into_expect_args(self) -> (args: Vec<String>)
        ensures
            texts(args@) == self.expect_args(),
    {
        let DeviceConfig {
            host,
            model: _,
            user,
            password_file,
            cipher,
            kexalgorithm,
            hostkeyalgorithm,
            extra_expect_params,
            filter_config: _,
        } = self;
        let mut extra = extra_expect_params;
        let mut args: Vec<String> = Vec::new();
        args.push(user);
        args.push(password_file);
        args.push(host);
        if let Some(kex) = kexalgorithm {
            args.push(kex);
        }
        if let Some(cipher) = cipher {
            args.push(cipher);
        }
        if let Some(hostkey) = hostkeyalgorithm {
            args.push(hostkey);
        }
        args.append(&mut extra);
        assert(texts(args@) =~= self.expect_args());
        args
    }

    /// Compiles the device's filter, if it has one.
    pub fn to_filter(&self) -> (r: Result<Option<CompiledFilter>, PatternError>)
        ensures
            match r {
                Ok(filter) => rules_for(self.filter_config) == Ok::<
                    Option<Rules>,
                    PatternErrorView,
                >(optional_rules(filter)),
                Err(e) => rules_for(self.filter_config) == Err::<Option<Rules>, PatternErrorView>(
                    e@,
                ),
            },
    {
        match &self.filter_config {
            None => Ok(None),
            Some(config) => match config.compile() {
                Ok(f) => Ok(Some(f)),
                Err(e) => Err(e),
            },
        }
    }

    /// Makes the device's filtered dump of what its expect script left. The
    /// filter is compiled first, so a bad pattern is reported whatever the
    /// script did.
    pub fn into_filtered_dump(self, scripts_dir: &str, outcome: &ProcessOutcome) -> (r: Result<
        Filtered,
        DumpError,
    >)
        ensures
            match r {
                Ok(dump) => self.filtered_dump(scripts_dir@, outcome@) == Ok::<
                    FilteredView,
                    DumpErrorView,
                >(dump@),
                Err(e) => self.filtered_dump(scripts_dir@, outcome@) == Err::<
                    FilteredView,
                    DumpErrorView,
                >(e@),
            },
    {
        let script_path = self.script_path(scripts_dir);
        let filter = match self.to_filter() {
            Ok(filter) => filter,
            Err(e) => {
                return Err(DumpError::Pattern(e));
            },
        };
        match raw_dump(script_path.as_str(), outcome) {
            Ok(raw) => Ok(filter_dump(&filter, raw)),
            Err(e) => Err(DumpError::Fetch(e)),
        }
    }
}

/// Without a filter, the dump of a device is what its script wrote to its
/// standard output, byte for byte.
pub proof fn law_unfiltered_dump_is_stdout(
    device: DeviceConfig,
    scripts_dir: Seq<char>,
    stdout: Seq<u8>,
    stderr: Seq<u8>,
)
    requires
        device.filter_config is None,
        valid_utf8(stdout),
    ensures
        device.filtered_dump(scripts_dir, Outcome::Exited { success: true, stdout, stderr })
            matches Ok(dump) && encode_utf8(dump.text) == stdout && !dump.nothing_left,
{
    vstd::utf8::decode_utf8_encode_utf8(stdout);
}

} // verus!
