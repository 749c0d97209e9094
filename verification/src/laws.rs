//! The guarantees of the synchronization cycle, stated over whole runs.
//!
//! A run is a trace: the states a cycle visited, each transition driven by
//! the outcome of the command the previous state asked for. Everything here
//! is proved from the transition relation `step_spec` alone, so it holds of
//! every caller that drives the cycle through `GitDrive::step`.
use crate::commands::cleanup_cmd;
use crate::commands::merge_file_cmd;
use crate::commands::show_base_cmd;
use crate::commands::show_ours_cmd;
use crate::commands::show_theirs_cmd;
use crate::commands::stage_file_cmd;
use crate::engine::conflict_files;
use crate::engine::state_command;
use crate::engine::step_spec;
use crate::engine::validate_spec;
use crate::engine::CycleStateModel;
use crate::engine::FileStep;
use crate::engine::GitDriveErrorModel;
use crate::engine::ReplicaModel;
use crate::engine::WorkDirProbe;
use crate::shell::ExecErrorModel;
use crate::text::is_blank_text;
use crate::text::parse_int_spec;
use crate::text::trimmed;
use vstd::prelude::*;

verus! {

/// The states one cycle ran through, driven by one command outcome per
/// transition: a cycle starts at the checkout and each later state follows
/// from its predecessor by the transition relation.
pub open spec fn cycle_trace(
    states: Seq<CycleStateModel>,
    events: Seq<Result<Seq<char>, ExecErrorModel>>,
) -> bool {
    &&& states.len() == events.len() + 1
    &&& states[0] == CycleStateModel::Checkout
    &&& forall|i: int|
        0 <= i < events.len() ==> states[i + 1] == step_spec(states[i], events[i])
}

/// When the working directory, its version-control metadata, the remote and
/// the branch all exist, validation succeeds; with any one of the four
/// missing — the others present — it fails with that precondition's own
/// error.
pub proof fn lemma_validation_outcomes(o: ReplicaModel, p: WorkDirProbe)
    ensures
        (p.dir_exists && p.git_dir_exists && p.remote_ref_exists && p.branch_ref_exists) <==> (
        validate_spec(o, p) == Ok::<(), GitDriveErrorModel>(())),
        !p.dir_exists ==> validate_spec(o, p) == Err::<(), GitDriveErrorModel>(
            (GitDriveErrorModel::NoSuchDir { path: o.watch_dir }),
        ),
        p.dir_exists && !p.git_dir_exists ==> validate_spec(o, p) == Err::<(), GitDriveErrorModel>(
            (GitDriveErrorModel::NoGitRepo { path: o.watch_dir }),
        ),
        p.dir_exists && p.git_dir_exists && !p.remote_ref_exists ==> validate_spec(o, p) == Err::<
            (),
            GitDriveErrorModel,
        >((GitDriveErrorModel::RemoteNotFound { remote: o.remote })),
        p.dir_exists && p.git_dir_exists && p.remote_ref_exists && !p.branch_ref_exists
            ==> validate_spec(o, p) == Err::<(), GitDriveErrorModel>(
            (GitDriveErrorModel::BranchNotFound { branch: o.branch }),
        ),
{
}

/// If every listing of modified tracked files during a cycle comes back
/// blank, the cycle never stages and never commits — though it may still
/// fetch, rebase and push.
pub proof fn lemma_blank_listing_commits_nothing(
    states: Seq<CycleStateModel>,
    events: Seq<Result<Seq<char>, ExecErrorModel>>,
)
    requires
        cycle_trace(states, events),
        forall|i: int|
            0 <= i < events.len() && states[i] == CycleStateModel::ListModified ==> (events[i]
                matches Ok(out) && is_blank_text(out)),
    ensures
        forall|n: int|
            0 <= n < states.len() ==> states[n] != CycleStateModel::StageModified && states[n]
                != CycleStateModel::Commit,
{
    assert forall|n: int|
        0 <= n < states.len() implies states[n] != CycleStateModel::StageModified && states[n]
        != CycleStateModel::Commit by {
        lemma_no_stage_upto(states, events, n);
    }
}

proof fn lemma_no_stage_upto(
    states: Seq<CycleStateModel>,
    events: Seq<Result<Seq<char>, ExecErrorModel>>,
    n: int,
)
    requires
        cycle_trace(states, events),
        forall|i: int|
            0 <= i < events.len() && states[i] == CycleStateModel::ListModified ==> (events[i]
                matches Ok(out) && is_blank_text(out)),
        0 <= n < states.len(),
    ensures
        states[n] != CycleStateModel::StageModified,
        states[n] != CycleStateModel::Commit,
    decreases n,
{
    if n > 0 {
        lemma_no_stage_upto(states, events, n - 1);
        assert(states[n] == step_spec(states[n - 1], events[n - 1]));
    }
}

/// Once a cycle is over, it stays over with the same result: no later
/// transition leaves the terminal state.
pub proof fn lemma_done_is_terminal(
    states: Seq<CycleStateModel>,
    events: Seq<Result<Seq<char>, ExecErrorModel>>,
    i: int,
    j: int,
    r: Result<(), GitDriveErrorModel>,
)
    requires
        cycle_trace(states, events),
        0 <= i <= j < states.len(),
        states[i] == CycleStateModel::Done(r),
    ensures
        states[j] == CycleStateModel::Done(r),
    decreases j - i,
{
    if j > i {
        lemma_done_is_terminal(states, events, i, j - 1, r);
        assert(states[j] == step_spec(states[j - 1], events[j - 1]));
    }
}

/// An unreachable remote is not a failure: when the connectivity probe
/// fails, the cycle ends successfully at once, and no later state fetches,
/// rebases, resolves or pushes.
pub proof fn lemma_unreachable_remote_ends_cycle(
    states: Seq<CycleStateModel>,
    events: Seq<Result<Seq<char>, ExecErrorModel>>,
    i: int,
)
    requires
        cycle_trace(states, events),
        0 <= i < events.len(),
        states[i] == CycleStateModel::Probe,
        events[i] is Err,
    ensures
        states[i + 1] == CycleStateModel::Done(Ok::<(), GitDriveErrorModel>(())),
        forall|j: int|
            i < j < states.len() ==> states[j] == CycleStateModel::Done(
                Ok::<(), GitDriveErrorModel>(()),
            ),
{
    assert(states[i + 1] == step_spec(states[i], events[i]));
    assert forall|j: int|
        i < j < states.len() implies states[j] == CycleStateModel::Done(
        Ok::<(), GitDriveErrorModel>(()),
    ) by {
        lemma_done_is_terminal(states, events, i + 1, j, Ok::<(), GitDriveErrorModel>(()));
    }
}

/// When the count of remote-only commits is positive, the cycle replays
/// local commits onto the fetched branch and then enters the conflict loop.
pub proof fn lemma_remote_changes_integrated(
    states: Seq<CycleStateModel>,
    events: Seq<Result<Seq<char>, ExecErrorModel>>,
    i: int,
    out: Seq<char>,
    n: int,
)
    requires
        cycle_trace(states, events),
        0 <= i < events.len(),
        states[i] == CycleStateModel::CountRemote,
        events[i] == Ok::<Seq<char>, ExecErrorModel>(out),
        parse_int_spec(trimmed(out)) == Ok::<int, crate::text::ParseIntFailure>(n),
        n > 0,
    ensures
        states[i + 1] == CycleStateModel::Rebase,
        i + 1 < events.len() && events[i + 1] is Ok ==> states[i + 2]
            == CycleStateModel::ListUnmerged,
{
    assert(states[i + 1] == step_spec(states[i], events[i]));
    if i + 1 < events.len() {
        assert(states[i + 2] == step_spec(states[i + 1], events[i + 1]));
    }
}

/// The publishing stage is entered only with the integration settled: either
/// no remote-only commits existed, or the conflict loop had just seen an
/// unmerged-file listing with nothing left in it. Resolution never hands
/// control onward while a file is still unmerged.
pub proof fn lemma_resolution_exits_only_clean(
    states: Seq<CycleStateModel>,
    events: Seq<Result<Seq<char>, ExecErrorModel>>,
    i: int,
)
    requires
        cycle_trace(states, events),
        0 <= i < events.len(),
        states[i + 1] == CycleStateModel::CountLocal,
    ensures
        states[i] == CycleStateModel::CountRemote || states[i] == CycleStateModel::ListUnmerged,
        states[i] == CycleStateModel::CountRemote ==> (events[i] matches Ok(out)
            && parse_int_spec(trimmed(out)) matches Ok(n) && n <= 0),
        states[i] == CycleStateModel::ListUnmerged ==> (events[i] matches Ok(out)
            && conflict_files(out).len() == 0),
{
    assert(states[i + 1] == step_spec(states[i], events[i]));
}

/// While resolution stands on one unmerged file, the six commands it asks
/// for are exactly: extract the ancestor, local and upstream versions, merge
/// them preferring the local side, stage the result, and remove the three
/// extracts — in that order, each successful outcome advancing to the next,
/// and the last moving to the next file or, after the final file, to
/// resuming the replay.
pub proof fn lemma_resolution_processes_file(
    o: ReplicaModel,
    files: Seq<Seq<char>>,
    index: int,
    ev: Seq<char>,
)
    requires
        0 <= index < files.len(),
    ensures
        state_command(
            o,
            (CycleStateModel::Resolve { files, index, step: FileStep::ShowBase }),
        ) == show_base_cmd(files[index]),
        state_command(
            o,
            (CycleStateModel::Resolve { files, index, step: FileStep::ShowOurs }),
        ) == show_ours_cmd(files[index]),
        state_command(
            o,
            (CycleStateModel::Resolve { files, index, step: FileStep::ShowTheirs }),
        ) == show_theirs_cmd(files[index]),
        state_command(o, (CycleStateModel::Resolve { files, index, step: FileStep::Merge }))
            == merge_file_cmd(files[index]),
        state_command(o, (CycleStateModel::Resolve { files, index, step: FileStep::Stage }))
            == stage_file_cmd(files[index]),
        state_command(o, (CycleStateModel::Resolve { files, index, step: FileStep::Cleanup }))
            == cleanup_cmd(files[index]),
        forall|s: FileStep, s2: FileStep|
            resolve_follows(s, s2) ==> step_spec(
                (CycleStateModel::Resolve { files, index, step: s }),
                Ok(ev),
            ) == (CycleStateModel::Resolve { files, index, step: s2 }),
        index + 1 < files.len() ==> step_spec(
            (CycleStateModel::Resolve { files, index, step: FileStep::Cleanup }),
            Ok(ev),
        ) == (CycleStateModel::Resolve { files, index: index + 1, step: FileStep::ShowBase }),
        index + 1 == files.len() ==> step_spec(
            (CycleStateModel::Resolve { files, index, step: FileStep::Cleanup }),
            Ok(ev),
        ) == CycleStateModel::ContinueRebase,
{
}

/// The order of the per-file actions: which action follows which.
pub open spec fn resolve_follows(s: FileStep, s2: FileStep) -> bool {
    ||| (s == FileStep::ShowBase && s2 == FileStep::ShowOurs)
    ||| (s == FileStep::ShowOurs && s2 == FileStep::ShowTheirs)
    ||| (s == FileStep::ShowTheirs && s2 == FileStep::Merge)
    ||| (s == FileStep::Merge && s2 == FileStep::Stage)
    ||| (s == FileStep::Stage && s2 == FileStep::Cleanup)
}

/// A commit is made only on the path that saw work to commit: the commit
/// state follows only the staging state, and staging follows only a listing
/// of modified tracked files that was not blank.
pub proof fn lemma_commit_needs_modified_files(
    states: Seq<CycleStateModel>,
    events: Seq<Result<Seq<char>, ExecErrorModel>>,
    i: int,
)
    requires
        cycle_trace(states, events),
        0 <= i < events.len(),
    ensures
        states[i + 1] == CycleStateModel::Commit ==> states[i] == CycleStateModel::StageModified,
        states[i + 1] == CycleStateModel::StageModified ==> states[i]
            == CycleStateModel::ListModified && (events[i] matches Ok(out) && !is_blank_text(out)),
{
    assert(states[i + 1] == step_spec(states[i], events[i]));
}

/// The local branch is pushed only when the count of local-only commits
/// came back positive; with nothing new to publish the cycle ends without
/// a push.
pub proof fn lemma_push_needs_local_commits(
    states: Seq<CycleStateModel>,
    events: Seq<Result<Seq<char>, ExecErrorModel>>,
    i: int,
)
    requires
        cycle_trace(states, events),
        0 <= i < events.len(),
    ensures
        states[i + 1] == CycleStateModel::Push ==> states[i] == CycleStateModel::CountLocal && (
        events[i] matches Ok(out) && parse_int_spec(trimmed(out)) matches Ok(n) && n > 0),
{
    assert(states[i + 1] == step_spec(states[i], events[i]));
}

/// A cycle that finds nothing locally modified, a reachable remote, and a
/// zero commit count in both directions runs the four stages as no-ops: it
/// checks out, lists, probes, fetches and counts, ends successfully, and at
/// no point stages, commits, rebases, resolves or pushes. Running a cycle
/// again right after a fully converged one is exactly such a run.
pub proof fn lemma_noop_cycle(
    states: Seq<CycleStateModel>,
    events: Seq<Result<Seq<char>, ExecErrorModel>>,
)
    requires
        cycle_trace(states, events),
        events.len() == 6,
        events[0] is Ok,
        (events[1] matches Ok(out) && is_blank_text(out)),
        events[2] is Ok,
        events[3] is Ok,
        (events[4] matches Ok(out) && parse_int_spec(trimmed(out)) matches Ok(n) && n <= 0),
        (events[5] matches Ok(out) && parse_int_spec(trimmed(out)) matches Ok(n) && n <= 0),
    ensures
        states[1] == CycleStateModel::ListModified,
        states[2] == CycleStateModel::Probe,
        states[3] == CycleStateModel::Fetch,
        states[4] == CycleStateModel::CountRemote,
        states[5] == CycleStateModel::CountLocal,
        states[6] == CycleStateModel::Done(Ok::<(), GitDriveErrorModel>(())),
{
    assert(states[1] == step_spec(states[0], events[0]));
    assert(states[2] == step_spec(states[1], events[1]));
    assert(states[3] == step_spec(states[2], events[2]));
    assert(states[4] == step_spec(states[3], events[3]));
    assert(states[5] == step_spec(states[4], events[4]));
    assert(states[6] == step_spec(states[5], events[5]));
}

} // verus!
