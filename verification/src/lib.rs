//! A small library that keeps a git-tracked working directory converged with a
//! single remote: each synchronization cycle commits local edits, integrates
//! remote edits (resolving conflicts in favor of the local side), and pushes.
//!
//! The cycle itself is a verified state machine over the text of shell
//! commands: callers run each command and feed its outcome back in.
pub mod commands;
pub mod engine;
pub mod laws;
pub mod shell;
pub mod text;

pub use engine::CycleState;
pub use engine::FileStep;
pub use engine::GitDrive;
pub use engine::GitDriveError;
pub use engine::GitDriveOpts;
pub use engine::WorkDirProbe;
pub use shell::ExecError;
pub use shell::Executer;
