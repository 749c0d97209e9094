use gitdrive::CycleState;
use gitdrive::ExecError;
use gitdrive::FileStep;
use gitdrive::GitDrive;
use gitdrive::GitDriveError;
use gitdrive::GitDriveOpts;
use gitdrive::WorkDirProbe;
use gitdrive::commands::commit_command;
use gitdrive::engine::parse_failure_message;
use gitdrive::text::ParseIntFailure;

fn opts() -> GitDriveOpts {
    GitDriveOpts {
        watch_dir: "/tmp/repo".to_string(),
        remote: "origin".to_string(),
        branch: "master".to_string(),
        hostname: "myhost".to_string(),
    }
}

fn all_found() -> WorkDirProbe {
    WorkDirProbe {
        dir_exists: true,
        git_dir_exists: true,
        remote_ref_exists: true,
        branch_ref_exists: true,
    }
}

fn drive() -> GitDrive {
    GitDrive::new(opts(), &all_found()).unwrap()
}

#[test]
fn validation_succeeds_with_all_preconditions() {
    assert!(opts().validate(&all_found()).is_ok());
    assert!(GitDrive::new(opts(), &all_found()).is_ok());
}

#[test]
fn validation_reports_missing_directory() {
    let probe = WorkDirProbe { dir_exists: false, ..all_found() };
    match opts().validate(&probe) {
        Err(GitDriveError::NoSuchDir { path }) => assert_eq!(path, "/tmp/repo"),
        other => panic!("wrong outcome: {:?}", other),
    }
}

#[test]
fn validation_reports_missing_metadata() {
    let probe = WorkDirProbe { git_dir_exists: false, ..all_found() };
    match opts().validate(&probe) {
        Err(GitDriveError::NoGitRepo { path }) => assert_eq!(path, "/tmp/repo"),
        other => panic!("wrong outcome: {:?}", other),
    }
}

#[test]
fn validation_reports_missing_remote() {
    let probe = WorkDirProbe { remote_ref_exists: false, ..all_found() };
    match opts().validate(&probe) {
        Err(GitDriveError::RemoteNotFound { remote }) => assert_eq!(remote, "origin"),
        other => panic!("wrong outcome: {:?}", other),
    }
}

#[test]
fn validation_reports_missing_branch() {
    let probe = WorkDirProbe { branch_ref_exists: false, ..all_found() };
    match opts().validate(&probe) {
        Err(GitDriveError::BranchNotFound { branch }) => assert_eq!(branch, "master"),
        other => panic!("wrong outcome: {:?}", other),
    }
}

#[test]
fn validation_short_circuits_in_order() {
    let probe = WorkDirProbe {
        dir_exists: false,
        git_dir_exists: false,
        remote_ref_exists: false,
        branch_ref_exists: false,
    };
    assert!(matches!(opts().validate(&probe), Err(GitDriveError::NoSuchDir { .. })));
    let probe = WorkDirProbe { dir_exists: true, ..probe };
    assert!(matches!(opts().validate(&probe), Err(GitDriveError::NoGitRepo { .. })));
    let probe = WorkDirProbe { git_dir_exists: true, ..probe };
    assert!(matches!(opts().validate(&probe), Err(GitDriveError::RemoteNotFound { .. })));
    let probe = WorkDirProbe { remote_ref_exists: true, ..probe };
    assert!(matches!(opts().validate(&probe), Err(GitDriveError::BranchNotFound { .. })));
}

#[test]
fn construction_fails_atomically() {
    let probe = WorkDirProbe { branch_ref_exists: false, ..all_found() };
    assert!(matches!(
        GitDrive::new(opts(), &probe),
        Err(GitDriveError::BranchNotFound { .. })
    ));
}

#[test]
fn error_descriptions_are_exact() {
    let e = GitDriveError::NoSuchDir { path: "/x".to_string() };
    assert_eq!(e.describe(), "no such directory: /x");
    let e = GitDriveError::NoGitRepo { path: "/x".to_string() };
    assert_eq!(e.describe(), "not a git directory: /x");
    let e = GitDriveError::RemoteNotFound { remote: "origin".to_string() };
    assert_eq!(e.describe(), "remote does not exist: origin");
    let e = GitDriveError::BranchNotFound { branch: "master".to_string() };
    assert_eq!(e.describe(), "branch does not exist: master");
    let e = GitDriveError::ParseError { message: "invalid digit found in string".to_string() };
    assert_eq!(e.describe(), "parse error: invalid digit found in string");
    let e = GitDriveError::Exec(ExecError::NonZeroExit {
        cmd: "git push".to_string(),
        stderr: "denied".to_string(),
        status: 128,
    });
    assert_eq!(
        e.describe(),
        "execution error: git push: non-zero exit (exit status: 128):\ndenied"
    );
    let e = GitDriveError::Exec(ExecError::Io {
        cmd: "git push".to_string(),
        message: "spawn failed".to_string(),
    });
    assert_eq!(e.describe(), "execution error: git push: i/o error: spawn failed");
}

#[test]
fn parse_failure_messages_are_exact() {
    assert_eq!(
        parse_failure_message(ParseIntFailure::Empty),
        "cannot parse integer from empty string"
    );
    assert_eq!(
        parse_failure_message(ParseIntFailure::InvalidDigit),
        "invalid digit found in string"
    );
    assert_eq!(
        parse_failure_message(ParseIntFailure::TooLarge),
        "number too large to fit in target type"
    );
    assert_eq!(
        parse_failure_message(ParseIntFailure::TooSmall),
        "number too small to fit in target type"
    );
}

#[test]
fn commands_name_the_configured_refs() {
    let d = drive();
    let cmd = |s: &CycleState| d.command_of(s).unwrap();
    assert_eq!(cmd(&CycleState::Checkout), "git checkout master");
    assert_eq!(cmd(&CycleState::ListModified), "git ls-files --modified");
    assert_eq!(
        cmd(&CycleState::StageModified),
        "git ls-files --modified | xargs git add"
    );
    assert_eq!(cmd(&CycleState::Probe), "git ls-remote --exit-code -h");
    assert_eq!(cmd(&CycleState::Fetch), "git fetch origin master");
    assert_eq!(
        cmd(&CycleState::CountRemote),
        "git rev-list --count master..origin/master"
    );
    assert_eq!(cmd(&CycleState::Rebase), "git rebase origin/master || true");
    assert_eq!(
        cmd(&CycleState::ListUnmerged),
        "git diff --name-only --diff-filter=U"
    );
    assert_eq!(cmd(&CycleState::ContinueRebase), "git rebase --continue");
    assert_eq!(
        cmd(&CycleState::CountLocal),
        "git rev-list --count origin/master..master"
    );
    assert_eq!(cmd(&CycleState::Push), "git push origin master");
    assert!(d.command_of(&CycleState::Done(Ok(()))).is_none());
}

#[test]
fn commit_command_tags_identity_and_timestamp() {
    assert_eq!(
        commit_command("myhost", "2024-01-01T00:00:00+00:00"),
        "git commit -m 'myhost: 2024-01-01T00:00:00+00:00'"
    );
    let d = drive();
    let c = d.command_of(&CycleState::Commit).unwrap();
    assert!(c.starts_with("git commit -m 'myhost: "));
    assert!(c.ends_with("'"));
    // the timestamp between tag and closing quote is never empty
    assert!(c.len() > "git commit -m 'myhost: ".len() + 1);
}

#[test]
fn resolution_commands_favor_the_local_side() {
    let d = drive();
    let state = |step: FileStep| CycleState::Resolve {
        files: vec!["notes.txt".to_string()],
        index: 0,
        step,
    };
    assert_eq!(
        d.command_of(&state(FileStep::ShowBase)).unwrap(),
        "git show :1:notes.txt > notes.txt.common"
    );
    assert_eq!(
        d.command_of(&state(FileStep::ShowOurs)).unwrap(),
        "git show :2:notes.txt > notes.txt.ours"
    );
    assert_eq!(
        d.command_of(&state(FileStep::ShowTheirs)).unwrap(),
        "git show :3:notes.txt > notes.txt.theirs"
    );
    assert_eq!(
        d.command_of(&state(FileStep::Merge)).unwrap(),
        "git merge-file -p --theirs notes.txt.ours notes.txt.common notes.txt.theirs > notes.txt"
    );
    assert_eq!(d.command_of(&state(FileStep::Stage)).unwrap(), "git add notes.txt");
    assert_eq!(
        d.command_of(&state(FileStep::Cleanup)).unwrap(),
        "rm notes.txt.ours notes.txt.common notes.txt.theirs"
    );
}

#[test]
fn step_skips_commit_when_nothing_modified() {
    let d = drive();
    let next = d.step(CycleState::ListModified, Ok("  \n".to_string()));
    assert!(matches!(next, CycleState::Probe));
}

#[test]
fn step_stages_when_something_modified() {
    let d = drive();
    let next = d.step(CycleState::ListModified, Ok("notes.txt\n".to_string()));
    assert!(matches!(next, CycleState::StageModified));
}

#[test]
fn step_ends_cycle_successfully_when_remote_unreachable() {
    let d = drive();
    let err = ExecError::NonZeroExit {
        cmd: "git ls-remote --exit-code -h".to_string(),
        stderr: "fatal: unable to access".to_string(),
        status: 128,
    };
    let next = d.step(CycleState::Probe, Err(err));
    assert!(matches!(next, CycleState::Done(Ok(()))));
}

#[test]
fn step_fails_cycle_on_unexpected_command_failure() {
    let d = drive();
    let err = ExecError::NonZeroExit {
        cmd: "git checkout master".to_string(),
        stderr: "fatal".to_string(),
        status: 1,
    };
    let next = d.step(CycleState::Checkout, Err(err));
    match next {
        CycleState::Done(Err(GitDriveError::Exec(ExecError::NonZeroExit { status, .. }))) => {
            assert_eq!(status, 1)
        },
        other => panic!("wrong state: {:?}", other),
    }
}

#[test]
fn step_reads_commit_counts() {
    let d = drive();
    assert!(matches!(
        d.step(CycleState::CountRemote, Ok("0\n".to_string())),
        CycleState::CountLocal
    ));
    assert!(matches!(
        d.step(CycleState::CountRemote, Ok("2\n".to_string())),
        CycleState::Rebase
    ));
    assert!(matches!(
        d.step(CycleState::CountLocal, Ok("0\n".to_string())),
        CycleState::Done(Ok(()))
    ));
    assert!(matches!(
        d.step(CycleState::CountLocal, Ok("1\n".to_string())),
        CycleState::Push
    ));
}

#[test]
fn step_fails_cycle_on_unreadable_count() {
    let d = drive();
    match d.step(CycleState::CountRemote, Ok("abc\n".to_string())) {
        CycleState::Done(Err(GitDriveError::ParseError { message })) => {
            assert_eq!(message, "invalid digit found in string")
        },
        other => panic!("wrong state: {:?}", other),
    }
    match d.step(CycleState::CountLocal, Ok("".to_string())) {
        CycleState::Done(Err(GitDriveError::ParseError { message })) => {
            assert_eq!(message, "cannot parse integer from empty string")
        },
        other => panic!("wrong state: {:?}", other),
    }
}

#[test]
fn step_ends_resolution_only_on_empty_listing() {
    let d = drive();
    assert!(matches!(
        d.step(CycleState::ListUnmerged, Ok("".to_string())),
        CycleState::CountLocal
    ));
    match d.step(CycleState::ListUnmerged, Ok(" notes.txt \nother.md\n".to_string())) {
        CycleState::Resolve { files, index, step } => {
            assert_eq!(files, vec!["notes.txt", "other.md"]);
            assert_eq!(index, 0);
            assert_eq!(step, FileStep::ShowBase);
        },
        other => panic!("wrong state: {:?}", other),
    }
}

#[test]
fn step_walks_each_file_through_all_six_actions() {
    let d = drive();
    let files = vec!["a.txt".to_string(), "b.txt".to_string()];
    let mut state = CycleState::Resolve { files, index: 0, step: FileStep::ShowBase };
    let expected = [
        (0, FileStep::ShowOurs),
        (0, FileStep::ShowTheirs),
        (0, FileStep::Merge),
        (0, FileStep::Stage),
        (0, FileStep::Cleanup),
        (1, FileStep::ShowBase),
        (1, FileStep::ShowOurs),
        (1, FileStep::ShowTheirs),
        (1, FileStep::Merge),
        (1, FileStep::Stage),
        (1, FileStep::Cleanup),
    ];
    for (want_index, want_step) in expected {
        state = d.step(state, Ok("".to_string()));
        match &state {
            CycleState::Resolve { index, step, .. } => {
                assert_eq!(*index, want_index);
                assert_eq!(*step, want_step);
            },
            other => panic!("wrong state: {:?}", other),
        }
    }
    state = d.step(state, Ok("".to_string()));
    assert!(matches!(state, CycleState::ContinueRebase));
    state = d.step(state, Ok("".to_string()));
    assert!(matches!(state, CycleState::ListUnmerged));
}

#[test]
fn done_is_terminal() {
    let d = drive();
    let done = d.step(CycleState::Push, Ok("".to_string()));
    assert!(matches!(done, CycleState::Done(Ok(()))));
    let still_done = d.step(done, Ok("ignored".to_string()));
    assert!(matches!(still_done, CycleState::Done(Ok(()))));
}

#[test]
fn runner_is_rooted_at_the_working_directory() {
    let d = drive();
    assert_eq!(d.runner().work_dir(), "/tmp/repo");
}
