//! The synchronization engine: configuration validation and the cycle state
//! machine. One cycle commits local edits, probes the remote, fetches and
//! replays remote edits (resolving conflicts in favor of the local side), and
//! pushes the result.
//!
//! The engine never spawns a process itself. Each state that expects work
//! names, through [`GitDrive::command_of`], the exact shell command to run;
//! the caller runs it and hands the outcome to [`GitDrive::step`], which
//! decides the next state. The transition relation is stated once, as the
//! specification function [`step_spec`], and `step` is proved to follow it.
use crate::commands::checkout_cmd;
use crate::commands::checkout_command;
use crate::commands::cleanup_cmd;
use crate::commands::cleanup_command;
use crate::commands::commit_cmd;
use crate::commands::commit_command;
use crate::commands::continue_rebase_cmd;
use crate::commands::count_local_cmd;
use crate::commands::count_local_command;
use crate::commands::count_remote_cmd;
use crate::commands::count_remote_command;
use crate::commands::fetch_cmd;
use crate::commands::fetch_command;
use crate::commands::list_modified_cmd;
use crate::commands::list_unmerged_cmd;
use crate::commands::merge_file_cmd;
use crate::commands::merge_file_command;
use crate::commands::probe_cmd;
use crate::commands::push_cmd;
use crate::commands::push_command;
use crate::commands::rebase_cmd;
use crate::commands::rebase_command;
use crate::commands::show_base_cmd;
use crate::commands::show_base_command;
use crate::commands::show_ours_cmd;
use crate::commands::show_ours_command;
use crate::commands::show_theirs_cmd;
use crate::commands::show_theirs_command;
use crate::commands::stage_file_cmd;
use crate::commands::stage_file_command;
use crate::commands::stage_modified_cmd;
use crate::shell::exec_error_text;
use crate::shell::outcome_model;
use crate::shell::ExecError;
use crate::shell::ExecErrorModel;
use crate::shell::Executer;
use crate::text::is_blank_text;
use crate::text::line_split;
use crate::text::parse_int;
use crate::text::parse_int_spec;
use crate::text::trim;
use crate::text::trimmed;
use crate::text::ParseIntFailure;
use vstd::prelude::*;

verus! {

/// Mathematical image of an engine failure.
pub enum GitDriveErrorModel {
    /// The working directory does not exist or is not a directory.
    NoSuchDir { path: Seq<char> },
    /// The working directory holds no version-control metadata directory.
    NoGitRepo { path: Seq<char> },
    /// The named remote has no tracking ref under the remotes namespace.
    RemoteNotFound { remote: Seq<char> },
    /// The named branch is not a local ref.
    BranchNotFound { branch: Seq<char> },
    /// An external command failed unexpectedly.
    Exec(ExecErrorModel),
    /// A commit-count query's output was not an integer.
    ParseError { message: Seq<char> },
}

/// Why construction or a cycle failed; the variants are distinct and
/// non-overlapping.
#[derive(Debug)]
pub enum GitDriveError {
    /// The working directory does not exist or is not a directory.
    NoSuchDir { path: String },
    /// The working directory holds no version-control metadata directory.
    NoGitRepo { path: String },
    /// The named remote has no tracking ref under the remotes namespace.
    RemoteNotFound { remote: String },
    /// The named branch is not a local ref.
    BranchNotFound { branch: String },
    /// An external command failed unexpectedly.
    Exec(ExecError),
    /// A commit-count query's output was not an integer.
    ParseError { message: String },
}

impl View for GitDriveError {
    type V = GitDriveErrorModel;

    open spec fn view(&self) -> GitDriveErrorModel {
        match self {
            GitDriveError::NoSuchDir { path } => GitDriveErrorModel::NoSuchDir { path: path@ },
            GitDriveError::NoGitRepo { path } => GitDriveErrorModel::NoGitRepo { path: path@ },
            GitDriveError::RemoteNotFound { remote } => GitDriveErrorModel::RemoteNotFound {
                remote: remote@,
            },
            GitDriveError::BranchNotFound { branch } => GitDriveErrorModel::BranchNotFound {
                branch: branch@,
            },
            GitDriveError::Exec(e) => GitDriveErrorModel::Exec(e@),
            GitDriveError::ParseError { message } => GitDriveErrorModel::ParseError {
                message: message@,
            },
        }
    }
}

/// One line of diagnostic text for an engine failure.
pub open spec fn git_drive_error_text(e: GitDriveErrorModel) -> Seq<char> {
    match e {
        GitDriveErrorModel::NoSuchDir { path } => "no such directory: "@ + path,
        GitDriveErrorModel::NoGitRepo { path } => "not a git directory: "@ + path,
        GitDriveErrorModel::RemoteNotFound { remote } => "remote does not exist: "@ + remote,
        GitDriveErrorModel::BranchNotFound { branch } => "branch does not exist: "@ + branch,
        GitDriveErrorModel::Exec(x) => "execution error: "@ + exec_error_text(x),
        GitDriveErrorModel::ParseError { message } => "parse error: "@ + message,
    }
}

impl GitDriveError {
    /// Renders the failure for diagnostics, as `git_drive_error_text`
    /// describes.
    pub fn describe(&self) -> (r: String)
        ensures
            r@ == git_drive_error_text(self@),
    {
        match self {
            GitDriveError::NoSuchDir { path } => {
                let mut r = String::from_str("no such directory: ");
                r.append(path.as_str());
                r
            },
            GitDriveError::NoGitRepo { path } => {
                let mut r = String::from_str("not a git directory: ");
                r.append(path.as_str());
                r
            },
            GitDriveError::RemoteNotFound { remote } => {
                let mut r = String::from_str("remote does not exist: ");
                r.append(remote.as_str());
                r
            },
            GitDriveError::BranchNotFound { branch } => {
                let mut r = String::from_str("branch does not exist: ");
                r.append(branch.as_str());
                r
            },
            GitDriveError::Exec(e) => {
                let mut r = String::from_str("execution error: ");
                r.append(e.describe().as_str());
                r
            },
            GitDriveError::ParseError { message } => {
                let mut r = String::from_str("parse error: ");
                r.append(message.as_str());
                r
            },
        }
    }
}

/// The message carried by a parse failure of a commit-count query.
pub open spec fn parse_failure_text(f: ParseIntFailure) -> Seq<char> {
    match f {
        ParseIntFailure::Empty => "cannot parse integer from empty string"@,
        ParseIntFailure::InvalidDigit => "invalid digit found in string"@,
        ParseIntFailure::TooLarge => "number too large to fit in target type"@,
        ParseIntFailure::TooSmall => "number too small to fit in target type"@,
    }
}

/// Renders a parse failure, as `parse_failure_text` describes.
pub fn parse_failure_message(f: ParseIntFailure) -> (r: String)
    ensures
        r@ == parse_failure_text(f),
{
    match f {
        ParseIntFailure::Empty => String::from_str("cannot parse integer from empty string"),
        ParseIntFailure::InvalidDigit => String::from_str("invalid digit found in string"),
        ParseIntFailure::TooLarge => String::from_str("number too large to fit in target type"),
        ParseIntFailure::TooSmall => String::from_str("number too small to fit in target type"),
    }
}

/// Mathematical image of a cycle's terminal result.
pub open spec fn sync_result_model(r: &Result<(), GitDriveError>) -> Result<
    (),
    GitDriveErrorModel,
> {
    match r {
        Ok(_) => Ok(()),
        Err(e) => Err(e@),
    }
}

/// Mathematical image of the replica configuration.
pub struct ReplicaModel {
    pub watch_dir: Seq<char>,
    pub remote: Seq<char>,
    pub branch: Seq<char>,
    pub hostname: Seq<char>,
}

/// Immutable per-process configuration: the directory to keep converged, the
/// remote and branch to converge with, and the identity label that tags
/// commits made here.
pub struct GitDriveOpts {
    pub watch_dir: String,
    pub remote: String,
    pub branch: String,
    pub hostname: String,
}

impl View for GitDriveOpts {
    type V = ReplicaModel;

    open spec fn view(&self) -> ReplicaModel {
        ReplicaModel {
            watch_dir: self.watch_dir@,
            remote: self.remote@,
            branch: self.branch@,
            hostname: self.hostname@,
        }
    }
}

/// What a look at the filesystem found of the configuration's four
/// preconditions. The caller fills it in; validation only judges it.
#[derive(Clone, Copy, Debug, PartialEq, Eq, Structural)]
pub struct WorkDirProbe {
    /// The working directory exists and is a directory.
    pub dir_exists: bool,
    /// It holds a version-control metadata directory.
    pub git_dir_exists: bool,
    /// The named remote has a tracking ref under the remotes namespace.
    pub remote_ref_exists: bool,
    /// The named branch exists as a local ref.
    pub branch_ref_exists: bool,
}

/// How validation judges a configuration: the first violated precondition, in a fixed
/// order, decides the error; with none violated the configuration stands.
pub open spec fn validate_spec(o: ReplicaModel, p: WorkDirProbe) -> Result<
    (),
    GitDriveErrorModel,
> {
    if !p.dir_exists {
        Err(GitDriveErrorModel::NoSuchDir { path: o.watch_dir })
    } else if !p.git_dir_exists {
        Err(GitDriveErrorModel::NoGitRepo { path: o.watch_dir })
    } else if !p.remote_ref_exists {
        Err(GitDriveErrorModel::RemoteNotFound { remote: o.remote })
    } else if !p.branch_ref_exists {
        Err(GitDriveErrorModel::BranchNotFound { branch: o.branch })
    } else {
        Ok(())
    }
}

impl GitDriveOpts {
    /// Judges the four preconditions exactly as `validate_spec` says:
    /// short-circuiting at the first violation, each with its own error.
    pub fn validate(&self, probe: &WorkDirProbe) -> (r: Result<(), GitDriveError>)
        ensures
            sync_result_model(&r) == validate_spec(self@, *probe),
    {
        if !probe.dir_exists {
            Err(GitDriveError::NoSuchDir { path: self.watch_dir.clone() })
        } else if !probe.git_dir_exists {
            Err(GitDriveError::NoGitRepo { path: self.watch_dir.clone() })
        } else if !probe.remote_ref_exists {
            Err(GitDriveError::RemoteNotFound { remote: self.remote.clone() })
        } else if !probe.branch_ref_exists {
            Err(GitDriveError::BranchNotFound { branch: self.branch.clone() })
        } else {
            Ok(())
        }
    }
}

/// Which of the six per-file actions conflict resolution performs next on
/// the file at hand.
#[derive(Clone, Copy, Debug, PartialEq, Eq, Structural)]
pub enum FileStep {
    /// Extract the common-ancestor version.
    ShowBase,
    /// Extract the local version.
    ShowOurs,
    /// Extract the upstream version.
    ShowTheirs,
    /// Merge the three versions, preferring the local side.
    Merge,
    /// Stage the merge result, marking the file resolved.
    Stage,
    /// Remove the three temporary extracted versions.
    Cleanup,
}

/// Mathematical image of a cycle state.
pub enum CycleStateModel {
    /// Stage A: switch the working tree to the configured branch.
    Checkout,
    /// Stage A: list locally modified tracked files.
    ListModified,
    /// Stage A: stage the modified files.
    StageModified,
    /// Stage A: commit them under the identity label and a timestamp.
    Commit,
    /// Stage B: probe whether the remote is reachable.
    Probe,
    /// Stage C: fetch the remote branch.
    Fetch,
    /// Stage C: count remote commits the local branch lacks.
    CountRemote,
    /// Stage C: replay local commits onto the fetched branch.
    Rebase,
    /// Stage C: list the files the index marks unmerged.
    ListUnmerged,
    /// Stage C: resolve the listed files one action at a time.
    Resolve { files: Seq<Seq<char>>, index: int, step: FileStep },
    /// Stage C: resume the paused replay.
    ContinueRebase,
    /// Stage D: count local commits the remote branch lacks.
    CountLocal,
    /// Stage D: push the local branch.
    Push,
    /// The cycle is over, with its terminal result.
    Done(Result<(), GitDriveErrorModel>),
}

impl CycleStateModel {
    /// Validity: a resolution state points at one of its listed files.
    pub open spec fn wf(self) -> bool {
        match self {
            CycleStateModel::Resolve { files, index, step } => 0 <= index < files.len(),
            _ => true,
        }
    }
}

/// One state of the synchronization cycle. Every state but `Done` has a
/// command to run; `step` takes the command's outcome to the next state.
#[derive(Debug)]
pub enum CycleState {
    /// Stage A: switch the working tree to the configured branch.
    Checkout,
    /// Stage A: list locally modified tracked files.
    ListModified,
    /// Stage A: stage the modified files.
    StageModified,
    /// Stage A: commit them under the identity label and a timestamp.
    Commit,
    /// Stage B: probe whether the remote is reachable.
    Probe,
    /// Stage C: fetch the remote branch.
    Fetch,
    /// Stage C: count remote commits the local branch lacks.
    CountRemote,
    /// Stage C: replay local commits onto the fetched branch.
    Rebase,
    /// Stage C: list the files the index marks unmerged.
    ListUnmerged,
    /// Stage C: resolve the listed files one action at a time.
    Resolve { files: Vec<String>, index: usize, step: FileStep },
    /// Stage C: resume the paused replay.
    ContinueRebase,
    /// Stage D: count local commits the remote branch lacks.
    CountLocal,
    /// Stage D: push the local branch.
    Push,
    /// The cycle is over, with its terminal result.
    Done(Result<(), GitDriveError>),
}

impl View for CycleState {
    type V = CycleStateModel;

    open spec fn view(&self) -> CycleStateModel {
        match self {
            CycleState::Checkout => CycleStateModel::Checkout,
            CycleState::ListModified => CycleStateModel::ListModified,
            CycleState::StageModified => CycleStateModel::StageModified,
            CycleState::Commit => CycleStateModel::Commit,
            CycleState::Probe => CycleStateModel::Probe,
            CycleState::Fetch => CycleStateModel::Fetch,
            CycleState::CountRemote => CycleStateModel::CountRemote,
            CycleState::Rebase => CycleStateModel::Rebase,
            CycleState::ListUnmerged => CycleStateModel::ListUnmerged,
            CycleState::Resolve { files, index, step } => CycleStateModel::Resolve {
                files: files.deep_view(),
                index: *index as int,
                step: *step,
            },
            CycleState::ContinueRebase => CycleStateModel::ContinueRebase,
            CycleState::CountLocal => CycleStateModel::CountLocal,
            CycleState::Push => CycleStateModel::Push,
            CycleState::Done(r) => CycleStateModel::Done(sync_result_model(r)),
        }
    }
}

/// The conflicting file names an unmerged-file listing holds: its lines,
/// each trimmed of blank space.
pub open spec fn conflict_files(out: Seq<char>) -> Seq<Seq<char>> {
    line_split(out).map_values(|l: Seq<char>| trimmed(l))
}

/// An unexpected command failure ends the cycle with that failure.
pub open spec fn failed(e: ExecErrorModel) -> CycleStateModel {
    CycleStateModel::Done(Err(GitDriveErrorModel::Exec(e)))
}

/// Reading a commit count: on an integer, one successor for a positive
/// count and another for zero (or a negative count); on anything else, the
/// cycle ends with a parse failure.
pub open spec fn count_next(
    out: Seq<char>,
    positive: CycleStateModel,
    nonpositive: CycleStateModel,
) -> CycleStateModel {
    match parse_int_spec(trimmed(out)) {
        Ok(n) => if n > 0 {
            positive
        } else {
            nonpositive
        },
        Err(f) => CycleStateModel::Done(
            Err(GitDriveErrorModel::ParseError { message: parse_failure_text(f) }),
        ),
    }
}

/// The next per-file action of conflict resolution, after the current one
/// succeeded: the six actions in order, then the next file, and after the
/// last file the resumption of the replay.
pub open spec fn advance_resolve(files: Seq<Seq<char>>, index: int, step: FileStep) -> CycleStateModel {
    match step {
        FileStep::ShowBase => CycleStateModel::Resolve { files, index, step: FileStep::ShowOurs },
        FileStep::ShowOurs => CycleStateModel::Resolve { files, index, step: FileStep::ShowTheirs },
        FileStep::ShowTheirs => CycleStateModel::Resolve { files, index, step: FileStep::Merge },
        FileStep::Merge => CycleStateModel::Resolve { files, index, step: FileStep::Stage },
        FileStep::Stage => CycleStateModel::Resolve { files, index, step: FileStep::Cleanup },
        FileStep::Cleanup => if index + 1 < files.len() {
            CycleStateModel::Resolve { files, index: index + 1, step: FileStep::ShowBase }
        } else {
            CycleStateModel::ContinueRebase
        },
    }
}

/// The transition relation of the cycle: from a state and the outcome of its
/// command to the next state.
///
/// Expected conditions are not failures: a blank list of modified files
/// skips the commit, an unreachable remote ends the cycle successfully, a
/// zero count skips the rebase or the push, and an empty unmerged list ends
/// resolution. Any other command failure ends the cycle with that failure.
pub open spec fn step_spec(
    st: CycleStateModel,
    ev: Result<Seq<char>, ExecErrorModel>,
) -> CycleStateModel {
    match st {
        CycleStateModel::Checkout => match ev {
            Ok(_) => CycleStateModel::ListModified,
            Err(e) => failed(e),
        },
        CycleStateModel::ListModified => match ev {
            Ok(out) => if is_blank_text(out) {
                CycleStateModel::Probe
            } else {
                CycleStateModel::StageModified
            },
            Err(e) => failed(e),
        },
        CycleStateModel::StageModified => match ev {
            Ok(_) => CycleStateModel::Commit,
            Err(e) => failed(e),
        },
        CycleStateModel::Commit => match ev {
            Ok(_) => CycleStateModel::Probe,
            Err(e) => failed(e),
        },
        CycleStateModel::Probe => match ev {
            Ok(_) => CycleStateModel::Fetch,
            Err(_) => CycleStateModel::Done(Ok(())),
        },
        CycleStateModel::Fetch => match ev {
            Ok(_) => CycleStateModel::CountRemote,
            Err(e) => failed(e),
        },
        CycleStateModel::CountRemote => match ev {
            Ok(out) => count_next(out, CycleStateModel::Rebase, CycleStateModel::CountLocal),
            Err(e) => failed(e),
        },
        CycleStateModel::Rebase => match ev {
            Ok(_) => CycleStateModel::ListUnmerged,
            Err(e) => failed(e),
        },
        CycleStateModel::ListUnmerged => match ev {
            Ok(out) => if conflict_files(out).len() == 0 {
                CycleStateModel::CountLocal
            } else {
                CycleStateModel::Resolve {
                    files: conflict_files(out),
                    index: 0,
                    step: FileStep::ShowBase,
                }
            },
            Err(e) => failed(e),
        },
        CycleStateModel::Resolve { files, index, step } => match ev {
            Ok(_) => advance_resolve(files, index, step),
            Err(e) => failed(e),
        },
        CycleStateModel::ContinueRebase => match ev {
            Ok(_) => CycleStateModel::ListUnmerged,
            Err(e) => failed(e),
        },
        CycleStateModel::CountLocal => match ev {
            Ok(out) => count_next(out, CycleStateModel::Push, CycleStateModel::Done(Ok(()))),
            Err(e) => failed(e),
        },
        CycleStateModel::Push => match ev {
            Ok(_) => CycleStateModel::Done(Ok(())),
            Err(e) => failed(e),
        },
        CycleStateModel::Done(r) => CycleStateModel::Done(r),
    }
}

/// The command a state asks the caller to run, over the configuration. The
/// `Commit` and `Done` arms are unused: `Done` asks for nothing, and the
/// commit command also carries a timestamp, which no state holds.
pub open spec fn state_command(o: ReplicaModel, st: CycleStateModel) -> Seq<char> {
    match st {
        CycleStateModel::Checkout => checkout_cmd(o.branch),
        CycleStateModel::ListModified => list_modified_cmd(),
        CycleStateModel::StageModified => stage_modified_cmd(),
        CycleStateModel::Commit => Seq::empty(),
        CycleStateModel::Probe => probe_cmd(),
        CycleStateModel::Fetch => fetch_cmd(o.remote, o.branch),
        CycleStateModel::CountRemote => count_remote_cmd(o.remote, o.branch),
        CycleStateModel::Rebase => rebase_cmd(o.remote, o.branch),
        CycleStateModel::ListUnmerged => list_unmerged_cmd(),
        CycleStateModel::Resolve { files, index, step } => match step {
            FileStep::ShowBase => show_base_cmd(files[index]),
            FileStep::ShowOurs => show_ours_cmd(files[index]),
            FileStep::ShowTheirs => show_theirs_cmd(files[index]),
            FileStep::Merge => merge_file_cmd(files[index]),
            FileStep::Stage => stage_file_cmd(files[index]),
            FileStep::Cleanup => cleanup_cmd(files[index]),
        },
        CycleStateModel::ContinueRebase => continue_rebase_cmd(),
        CycleStateModel::CountLocal => count_local_cmd(o.remote, o.branch),
        CycleStateModel::Push => push_cmd(o.remote, o.branch),
        CycleStateModel::Done(_) => Seq::empty(),
    }
}

/// Relies on chrono's `Utc::now` and `DateTime::to_rfc3339` for the current
/// UTC time rendered as an RFC 3339 date-time string, such as
/// `1996-12-19T16:39:57+00:00`. The result depends on the clock, so nothing
/// is stated of it beyond nonemptiness.
#[verifier::external_body]
fn timestamp_now() -> (r: String)
    ensures
        r@.len() > 0,
{
    chrono::Utc::now().to_rfc3339()
}

/// The engine: a validated configuration bound to a command runner rooted at
/// its working directory.
pub struct GitDrive {
    executer: Executer,
    opts: GitDriveOpts,
}

impl GitDrive {
    /// The runner is always rooted at the configured working directory.
    #[verifier::type_invariant]
    spec fn bound_to_work_dir(self) -> bool {
        self.executer@ == self.opts@.watch_dir
    }
}

impl View for GitDrive {
    type V = ReplicaModel;

    /// An engine is summed up by its configuration.
    closed spec fn view(&self) -> ReplicaModel {
        self.opts@
    }
}

impl GitDrive {
    /// Validates the configuration against what the caller's look at the
    /// filesystem found, and binds it to a runner rooted at its working
    /// directory. Fails atomically, with the error `validate_spec` names.
    pub fn new(opts: GitDriveOpts, probe: &WorkDirProbe) -> (r: Result<GitDrive, GitDriveError>)
        ensures
            match r {
                Ok(d) => validate_spec(opts@, *probe) == Ok::<(), GitDriveErrorModel>(()) && d@
                    == opts@,
                Err(e) => validate_spec(opts@, *probe) == Err::<(), GitDriveErrorModel>(e@),
            },
    {
        match opts.validate(probe) {
            Ok(_) => Ok(GitDrive { executer: Executer::new(opts.watch_dir.as_str()), opts }),
            Err(e) => Err(e),
        }
    }

    /// The runner bound to the configured working directory.
    pub fn runner(&self) -> (r: &Executer)
        ensures
            r@ == self@.watch_dir,
    {
        proof {
            use_type_invariant(self);
        }
        &self.executer
    }

    /// The state every cycle starts in.
    pub fn start_cycle(&self) -> (r: CycleState)
        ensures
            r@ == CycleStateModel::Checkout,
    {
        CycleState::Checkout
    }

    /// The command the given state asks the caller to run: none when the
    /// cycle is over; for a commit, the fixed message around a fresh
    /// timestamp; for every other state, exactly `state_command`.
    pub fn command_of(&self, state: &CycleState) -> (r: Option<String>)
        requires
            state@.wf(),
        ensures
            match state@ {
                CycleStateModel::Done(_) => r is None,
                CycleStateModel::Commit => r matches Some(c) && exists|ts: Seq<char>|
                    ts.len() > 0 && c@ == commit_cmd(self@.hostname, ts),
                _ => r matches Some(c) && c@ == state_command(self@, state@),
            },
    {
        match state {
            CycleState::Checkout => Some(checkout_command(self.opts.branch.as_str())),
            CycleState::ListModified => Some(String::from_str("git ls-files --modified")),
            CycleState::StageModified => Some(
                String::from_str("git ls-files --modified | xargs git add"),
            ),
            CycleState::Commit => {
                let ts = timestamp_now();
                let c = commit_command(self.opts.hostname.as_str(), ts.as_str());
                proof {
                    assert(ts@.len() > 0 && c@ == commit_cmd(self@.hostname, ts@));
                }
                Some(c)
            },
            CycleState::Probe => Some(String::from_str("git ls-remote --exit-code -h")),
            CycleState::Fetch => Some(
                fetch_command(self.opts.remote.as_str(), self.opts.branch.as_str()),
            ),
            CycleState::CountRemote => Some(
                count_remote_command(self.opts.remote.as_str(), self.opts.branch.as_str()),
            ),
            CycleState::Rebase => Some(
                rebase_command(self.opts.remote.as_str(), self.opts.branch.as_str()),
            ),
            CycleState::ListUnmerged => Some(
                String::from_str("git diff --name-only --diff-filter=U"),
            ),
            CycleState::Resolve { files, index, step } => {
                let f = &files[*index];
                match step {
                    FileStep::ShowBase => Some(show_base_command(f.as_str())),
                    FileStep::ShowOurs => Some(show_ours_command(f.as_str())),
                    FileStep::ShowTheirs => Some(show_theirs_command(f.as_str())),
                    FileStep::Merge => Some(merge_file_command(f.as_str())),
                    FileStep::Stage => Some(stage_file_command(f.as_str())),
                    FileStep::Cleanup => Some(cleanup_command(f.as_str())),
                }
            },
            CycleState::ContinueRebase => Some(String::from_str("git rebase --continue")),
            CycleState::CountLocal => Some(
                count_local_command(self.opts.remote.as_str(), self.opts.branch.as_str()),
            ),
            CycleState::Push => Some(
                push_command(self.opts.remote.as_str(), self.opts.branch.as_str()),
            ),
            CycleState::Done(_) => None,
        }
    }

    /// Takes one transition of the cycle, exactly as `step_spec` says, and
    /// keeps states valid.
    pub fn step(&self, state: CycleState, outcome: Result<String, ExecError>) -> (next: CycleState)
        ensures
            next@ == step_spec(state@, outcome_model(&outcome)),
            state@.wf() ==> next@.wf(),
    {
        match state {
            CycleState::Checkout => match outcome {
                Ok(_) => CycleState::ListModified,
                Err(e) => CycleState::Done(Err(GitDriveError::Exec(e))),
            },
            CycleState::ListModified => match outcome {
                Ok(out) => {
                    if crate::text::blank_text(out.as_str()) {
                        CycleState::Probe
                    } else {
                        CycleState::StageModified
                    }
                },
                Err(e) => CycleState::Done(Err(GitDriveError::Exec(e))),
            },
            CycleState::StageModified => match outcome {
                Ok(_) => CycleState::Commit,
                Err(e) => CycleState::Done(Err(GitDriveError::Exec(e))),
            },
            CycleState::Commit => match outcome {
                Ok(_) => CycleState::Probe,
                Err(e) => CycleState::Done(Err(GitDriveError::Exec(e))),
            },
            CycleState::Probe => match outcome {
                Ok(_) => CycleState::Fetch,
                Err(_) => CycleState::Done(Ok(())),
            },
            CycleState::Fetch => match outcome {
                Ok(_) => CycleState::CountRemote,
                Err(e) => CycleState::Done(Err(GitDriveError::Exec(e))),
            },
            CycleState::CountRemote => match outcome {
                Ok(out) => Self::count_step(out, CycleState::Rebase, CycleState::CountLocal),
                Err(e) => CycleState::Done(Err(GitDriveError::Exec(e))),
            },
            CycleState::Rebase => match outcome {
                Ok(_) => CycleState::ListUnmerged,
                Err(e) => CycleState::Done(Err(GitDriveError::Exec(e))),
            },
            CycleState::ListUnmerged => match outcome {
                Ok(out) => Self::unmerged_step(out),
                Err(e) => CycleState::Done(Err(GitDriveError::Exec(e))),
            },
            CycleState::Resolve { files, index, step } => match outcome {
                Ok(_) => Self::resolve_step(files, index, step),
                Err(e) => CycleState::Done(Err(GitDriveError::Exec(e))),
            },
            CycleState::ContinueRebase => match outcome {
                Ok(_) => CycleState::ListUnmerged,
                Err(e) => CycleState::Done(Err(GitDriveError::Exec(e))),
            },
            CycleState::CountLocal => match outcome {
                Ok(out) => Self::count_step(out, CycleState::Push, CycleState::Done(Ok(()))),
                Err(e) => CycleState::Done(Err(GitDriveError::Exec(e))),
            },
            CycleState::Push => match outcome {
                Ok(_) => CycleState::Done(Ok(())),
                Err(e) => CycleState::Done(Err(GitDriveError::Exec(e))),
            },
            CycleState::Done(r) => CycleState::Done(r),
        }
    }

    /// Reads a commit count and picks the successor, as `count_next` says.
    fn count_step(out: String, positive: CycleState, nonpositive: CycleState) -> (next: CycleState)
        ensures
            next@ == count_next(out@, positive@, nonpositive@),
            positive@.wf() && nonpositive@.wf() ==> next@.wf(),
    {
        let t = trim(out.as_str());
        match parse_int(t.as_str()) {
            Ok(n) => if n > 0 {
                positive
            } else {
                nonpositive
            },
            Err(f) => CycleState::Done(
                Err(GitDriveError::ParseError { message: parse_failure_message(f) }),
            ),
        }
    }

    /// Reads the unmerged-file listing: an empty listing ends resolution,
    /// a nonempty one starts on its first file.
    fn unmerged_step(out: String) -> (next: CycleState)
        ensures
            next@ == step_spec(CycleStateModel::ListUnmerged, Ok(out@)),
            next@.wf(),
    {
        let lines = crate::text::split_lines(out.as_str());
        let mut files: Vec<String> = Vec::new();
        let mut k: usize = 0;
        while k < lines.len()
            invariant
                lines.deep_view() == line_split(out@),
                0 <= k <= lines@.len(),
                files@.len() == k,
                forall|j: int| 0 <= j < k ==> files@[j]@ == trimmed(lines@[j]@),
            decreases lines@.len() - k,
        {
            let t = trim(lines[k].as_str());
            files.push(t);
            k = k + 1;
        }
        proof {
            assert forall|j: int| 0 <= j < files@.len() implies files.deep_view()[j]
                == conflict_files(out@)[j] by {
                assert(files.deep_view()[j] == files@[j]@);
                assert(lines.deep_view()[j] == lines@[j]@);
            }
            assert(files.deep_view() =~= conflict_files(out@));
        }
        if files.len() == 0 {
            CycleState::CountLocal
        } else {
            CycleState::Resolve { files, index: 0, step: FileStep::ShowBase }
        }
    }

    /// Advances resolution after one successful per-file action, as
    /// `advance_resolve` says.
    fn resolve_step(files: Vec<String>, index: usize, step: FileStep) -> (next: CycleState)
        ensures
            next@ == advance_resolve(files.deep_view(), index as int, step),
            (index as int) < files.deep_view().len() ==> next@.wf(),
    {
        match step {
            FileStep::ShowBase => CycleState::Resolve { files, index, step: FileStep::ShowOurs },
            FileStep::ShowOurs => CycleState::Resolve { files, index, step: FileStep::ShowTheirs },
            FileStep::ShowTheirs => CycleState::Resolve { files, index, step: FileStep::Merge },
            FileStep::Merge => CycleState::Resolve { files, index, step: FileStep::Stage },
            FileStep::Stage => CycleState::Resolve { files, index, step: FileStep::Cleanup },
            FileStep::Cleanup => {
                let n = files.len();
                if index < n && index + 1 < n {
                    CycleState::Resolve { files, index: index + 1, step: FileStep::ShowBase }
                } else {
                    CycleState::ContinueRebase
                }
            },
        }
    }
}

} // verus!
