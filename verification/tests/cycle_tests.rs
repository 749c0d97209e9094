//! Whole-cycle scenarios: the state machine driven with scripted command
//! outcomes, checking which commands a cycle asks for and how it ends.
use gitdrive::CycleState;
use gitdrive::ExecError;
use gitdrive::GitDrive;
use gitdrive::GitDriveOpts;
use gitdrive::WorkDirProbe;

fn drive() -> GitDrive {
    let opts = GitDriveOpts {
        watch_dir: "/tmp/repo".to_string(),
        remote: "origin".to_string(),
        branch: "master".to_string(),
        hostname: "myhost".to_string(),
    };
    let probe = WorkDirProbe {
        dir_exists: true,
        git_dir_exists: true,
        remote_ref_exists: true,
        branch_ref_exists: true,
    };
    GitDrive::new(opts, &probe).unwrap()
}

fn unreachable_remote() -> ExecError {
    ExecError::NonZeroExit {
        cmd: "git ls-remote --exit-code -h".to_string(),
        stderr: "fatal: unable to access remote".to_string(),
        status: 128,
    }
}

/// Runs one cycle, feeding the scripted outcomes in order; returns every
/// command the cycle asked for and the terminal state.
fn run_cycle(
    d: &GitDrive,
    outcomes: Vec<Result<String, ExecError>>,
) -> (Vec<String>, CycleState) {
    let mut commands = Vec::new();
    let mut state = d.start_cycle();
    for outcome in outcomes {
        let cmd = d.command_of(&state).expect("cycle ended before its script ran out");
        commands.push(cmd);
        state = d.step(state, outcome);
    }
    assert!(
        d.command_of(&state).is_none(),
        "cycle still wants a command after its script ran out"
    );
    (commands, state)
}

#[test]
fn modified_file_with_unreachable_remote_commits_and_stops() {
    let d = drive();
    let (commands, end) = run_cycle(
        &d,
        vec![
            Ok("".to_string()),              // checkout
            Ok("notes.txt\n".to_string()),   // one modified tracked file
            Ok("".to_string()),              // stage
            Ok("".to_string()),              // commit
            Err(unreachable_remote()),       // probe fails
        ],
    );
    assert!(matches!(end, CycleState::Done(Ok(()))));
    assert_eq!(commands[0], "git checkout master");
    assert_eq!(commands[1], "git ls-files --modified");
    assert_eq!(commands[2], "git ls-files --modified | xargs git add");
    assert!(commands[3].starts_with("git commit -m 'myhost: "));
    assert!(commands[3].ends_with("'"));
    assert_eq!(commands[4], "git ls-remote --exit-code -h");
    assert_eq!(commands.len(), 5);
    assert!(commands.iter().all(|c| !c.starts_with("git fetch")));
    assert!(commands.iter().all(|c| !c.starts_with("git rebase")));
    assert!(commands.iter().all(|c| !c.starts_with("git push")));
}

#[test]
fn nothing_modified_still_fetches_and_pushes_nothing_new() {
    let d = drive();
    let (commands, end) = run_cycle(
        &d,
        vec![
            Ok("".to_string()),   // checkout
            Ok("\n".to_string()), // no modified files (blank listing)
            Ok("refs".to_string()),   // probe succeeds
            Ok("".to_string()),   // fetch
            Ok("0\n".to_string()), // no remote-only commits
            Ok("0\n".to_string()), // no local-only commits
        ],
    );
    assert!(matches!(end, CycleState::Done(Ok(()))));
    assert_eq!(
        commands,
        vec![
            "git checkout master",
            "git ls-files --modified",
            "git ls-remote --exit-code -h",
            "git fetch origin master",
            "git rev-list --count master..origin/master",
            "git rev-list --count origin/master..master",
        ]
    );
}

#[test]
fn conflicting_edit_is_resolved_in_favor_of_local_and_pushed() {
    let d = drive();
    let (commands, end) = run_cycle(
        &d,
        vec![
            Ok("".to_string()),            // checkout
            Ok("notes.txt\n".to_string()), // local edit
            Ok("".to_string()),            // stage
            Ok("".to_string()),            // commit
            Ok("refs".to_string()),        // probe succeeds
            Ok("".to_string()),            // fetch
            Ok("1\n".to_string()),         // one remote-only commit
            Ok("".to_string()),            // rebase pauses on a conflict
            Ok("notes.txt\n".to_string()), // one unmerged file
            Ok("".to_string()),            // show ancestor
            Ok("".to_string()),            // show ours
            Ok("".to_string()),            // show theirs
            Ok("".to_string()),            // merge preferring local
            Ok("".to_string()),            // stage resolved file
            Ok("".to_string()),            // remove extracts
            Ok("".to_string()),            // rebase continues
            Ok("".to_string()),            // no unmerged files remain
            Ok("2\n".to_string()),         // rewritten local commits to publish
            Ok("".to_string()),            // push
        ],
    );
    assert!(matches!(end, CycleState::Done(Ok(()))));
    assert_eq!(commands[6], "git rev-list --count master..origin/master");
    assert_eq!(commands[7], "git rebase origin/master || true");
    assert_eq!(commands[8], "git diff --name-only --diff-filter=U");
    assert_eq!(commands[9], "git show :1:notes.txt > notes.txt.common");
    assert_eq!(commands[10], "git show :2:notes.txt > notes.txt.ours");
    assert_eq!(commands[11], "git show :3:notes.txt > notes.txt.theirs");
    assert_eq!(
        commands[12],
        "git merge-file -p --theirs notes.txt.ours notes.txt.common notes.txt.theirs > notes.txt"
    );
    assert_eq!(commands[13], "git add notes.txt");
    assert_eq!(commands[14], "rm notes.txt.ours notes.txt.common notes.txt.theirs");
    assert_eq!(commands[15], "git rebase --continue");
    assert_eq!(commands[16], "git diff --name-only --diff-filter=U");
    assert_eq!(commands[17], "git rev-list --count origin/master..master");
    assert_eq!(commands[18], "git push origin master");
    assert_eq!(commands.len(), 19);
}

#[test]
fn a_second_batch_of_conflicts_is_resolved_too() {
    let d = drive();
    let (commands, end) = run_cycle(
        &d,
        vec![
            Ok("".to_string()),            // checkout
            Ok(" ".to_string()),           // nothing modified
            Ok("refs".to_string()),        // probe succeeds
            Ok("".to_string()),            // fetch
            Ok("3\n".to_string()),         // remote-only commits
            Ok("".to_string()),            // rebase pauses
            Ok("a.txt\n".to_string()),     // first batch
            Ok("".to_string()),
            Ok("".to_string()),
            Ok("".to_string()),
            Ok("".to_string()),
            Ok("".to_string()),
            Ok("".to_string()),
            Ok("".to_string()),            // rebase continues
            Ok("b.txt\n".to_string()),     // a later commit conflicts again
            Ok("".to_string()),
            Ok("".to_string()),
            Ok("".to_string()),
            Ok("".to_string()),
            Ok("".to_string()),
            Ok("".to_string()),
            Ok("".to_string()),            // rebase continues again
            Ok("".to_string()),            // now clean
            Ok("0\n".to_string()),         // nothing local-only to publish
        ],
    );
    assert!(matches!(end, CycleState::Done(Ok(()))));
    assert_eq!(commands[6], "git diff --name-only --diff-filter=U");
    assert_eq!(commands[9], "git show :3:a.txt > a.txt.theirs");
    assert_eq!(commands[13], "git rebase --continue");
    assert_eq!(commands[14], "git diff --name-only --diff-filter=U");
    assert_eq!(
        commands[18],
        "git merge-file -p --theirs b.txt.ours b.txt.common b.txt.theirs > b.txt"
    );
    assert_eq!(commands[21], "git rebase --continue");
    assert!(commands.iter().all(|c| !c.starts_with("git push")));
}

#[test]
fn unexpected_failure_aborts_remaining_stages() {
    let d = drive();
    let fetch_failure = ExecError::NonZeroExit {
        cmd: "git fetch origin master".to_string(),
        stderr: "fatal: repository not found".to_string(),
        status: 128,
    };
    let (commands, end) = run_cycle(
        &d,
        vec![
            Ok("".to_string()),
            Ok("".to_string()),
            Ok("refs".to_string()),
            Err(fetch_failure),
        ],
    );
    match end {
        CycleState::Done(Err(gitdrive::GitDriveError::Exec(ExecError::NonZeroExit {
            cmd,
            status,
            ..
        }))) => {
            assert_eq!(cmd, "git fetch origin master");
            assert_eq!(status, 128);
        },
        other => panic!("wrong terminal state: {:?}", other),
    }
    assert_eq!(commands.len(), 4);
}
