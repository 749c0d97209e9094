//! The command-execution boundary: the outcome of one external command as
//! plain values, and the runner bound to a working directory. Running a
//! command spawns a process, so the run itself lives with the caller; the
//! library consumes outcomes and decides what to run next.
use crate::text::dec_int;
use crate::text::int_string;
use vstd::prelude::*;

verus! {

/// Mathematical image of a failed command execution.
pub enum ExecErrorModel {
    /// The process ran and exited with a non-success status.
    NonZeroExit { cmd: Seq<char>, stderr: Seq<char>, status: int },
    /// The process could not be spawned, or its output was not valid text.
    Io { cmd: Seq<char>, message: Seq<char> },
}

/// A failed command execution: either the process exited with a non-success
/// status, or it could not be run at all.
#[derive(Debug)]
pub enum ExecError {
    /// Non-success exit: the command, its captured standard error, and the
    /// exit status code.
    NonZeroExit { cmd: String, stderr: String, status: i32 },
    /// The process could not be spawned, or its output was not valid text.
    Io { cmd: String, message: String },
}

impl View for ExecError {
    type V = ExecErrorModel;

    open spec fn view(&self) -> ExecErrorModel {
        match self {
            ExecError::NonZeroExit { cmd, stderr, status } => ExecErrorModel::NonZeroExit {
                cmd: cmd@,
                stderr: stderr@,
                status: *status as int,
            },
            ExecError::Io { cmd, message } => ExecErrorModel::Io { cmd: cmd@, message: message@ },
        }
    }
}

/// One line of diagnostic text for a failed execution.
pub open spec fn exec_error_text(e: ExecErrorModel) -> Seq<char> {
    match e {
        ExecErrorModel::NonZeroExit { cmd, stderr, status } => cmd + ": non-zero exit (exit status: "@
            + dec_int(status) + "):\n"@ + stderr,
        ExecErrorModel::Io { cmd, message } => cmd + ": i/o error: "@ + message,
    }
}

impl ExecError {
    /// Renders the failure for diagnostics, as `exec_error_text` describes.
    pub fn describe(&self) -> (r: String)
        ensures
            r@ == exec_error_text(self@),
    {
        match self {
            ExecError::NonZeroExit { cmd, stderr, status } => {
                let mut r = cmd.clone();
                r.append(": non-zero exit (exit status: ");
                r.append(int_string(*status).as_str());
                r.append("):\n");
                r.append(stderr.as_str());
                r
            },
            ExecError::Io { cmd, message } => {
                let mut r = cmd.clone();
                r.append(": i/o error: ");
                r.append(message.as_str());
                r
            },
        }
    }
}

/// The image of one command's outcome: its standard output on success, or
/// the classified failure.
pub open spec fn outcome_model(o: &Result<String, ExecError>) -> Result<Seq<char>, ExecErrorModel> {
    match o {
        Ok(out) => Ok(out@),
        Err(e) => Err(e@),
    }
}

/// Runs shell commands with a fixed working directory as current directory.
/// The spawning itself is left to the caller; this type only fixes where
/// commands are meant to run.
pub struct Executer {
    work_dir: String,
}

impl View for Executer {
    type V = Seq<char>;

    /// A runner is summed up by the directory it is bound to.
    closed spec fn view(&self) -> Seq<char> {
        self.work_dir@
    }
}

impl Executer {
    /// Binds a runner to a working directory.
    pub fn new(work_dir: &str) -> (e: Executer)
        ensures
            e@ == work_dir@,
    {
        Executer { work_dir: work_dir.to_owned() }
    }

    /// The directory every command is meant to run in.
    pub fn work_dir(&self) -> (r: &str)
        ensures
            r@ == self@,
    {
        self.work_dir.as_str()
    }
}

} // verus!
