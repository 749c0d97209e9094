//! The exact text of every shell command the synchronization cycle issues,
//! each stated as a specification over character sequences and built by a
//! verified function.
use vstd::prelude::*;

verus! {

/// `git checkout <branch>`: switch the working tree to the branch.
pub open spec fn checkout_cmd(branch: Seq<char>) -> Seq<char> {
    "git checkout "@ + branch
}

/// `git ls-files --modified`: list locally modified tracked files.
pub open spec fn list_modified_cmd() -> Seq<char> {
    "git ls-files --modified"@
}

/// Stage every locally modified tracked file.
pub open spec fn stage_modified_cmd() -> Seq<char> {
    "git ls-files --modified | xargs git add"@
}

/// Commit with a message that tags the local identity and a timestamp.
pub open spec fn commit_cmd(host: Seq<char>, timestamp: Seq<char>) -> Seq<char> {
    "git commit -m '"@ + host + ": "@ + timestamp + "'"@
}

/// A read-only remote listing, used as a connectivity probe.
pub open spec fn probe_cmd() -> Seq<char> {
    "git ls-remote --exit-code -h"@
}

/// `git fetch <remote> <branch>`: fetch the remote branch.
pub open spec fn fetch_cmd(remote: Seq<char>, branch: Seq<char>) -> Seq<char> {
    "git fetch "@ + remote + " "@ + branch
}

/// Count the commits on the remote branch that the local branch lacks.
pub open spec fn count_remote_cmd(remote: Seq<char>, branch: Seq<char>) -> Seq<char> {
    "git rev-list --count "@ + branch + ".."@ + remote + "/"@ + branch
}

/// Replay local commits onto the fetched remote branch; a paused, conflicted
/// outcome is expected, so a non-success exit is masked.
pub open spec fn rebase_cmd(remote: Seq<char>, branch: Seq<char>) -> Seq<char> {
    "git rebase "@ + remote + "/"@ + branch + " || true"@
}

/// List the files the index currently marks unmerged.
pub open spec fn list_unmerged_cmd() -> Seq<char> {
    "git diff --name-only --diff-filter=U"@
}

/// Extract the common-ancestor version of an unmerged file.
pub open spec fn show_base_cmd(file: Seq<char>) -> Seq<char> {
    "git show :1:"@ + file + " > "@ + file + ".common"@
}

/// Extract the local ("ours") version of an unmerged file.
pub open spec fn show_ours_cmd(file: Seq<char>) -> Seq<char> {
    "git show :2:"@ + file + " > "@ + file + ".ours"@
}

/// Extract the upstream ("theirs") version of an unmerged file.
pub open spec fn show_theirs_cmd(file: Seq<char>) -> Seq<char> {
    "git show :3:"@ + file + " > "@ + file + ".theirs"@
}

/// Three-way merge of the extracted versions, taking the local side verbatim
/// on any colliding region. During a rebase the side being replayed — the
/// local edits — is the file passed first, which `--theirs` prefers.
pub open spec fn merge_file_cmd(file: Seq<char>) -> Seq<char> {
    "git merge-file -p --theirs "@ + file + ".ours "@ + file + ".common "@ + file + ".theirs > "@
        + file
}

/// Mark one file resolved by staging it.
pub open spec fn stage_file_cmd(file: Seq<char>) -> Seq<char> {
    "git add "@ + file
}

/// Remove the three temporary extracted versions of one file.
pub open spec fn cleanup_cmd(file: Seq<char>) -> Seq<char> {
    "rm "@ + file + ".ours "@ + file + ".common "@ + file + ".theirs"@
}

/// Resume the paused replay once every current conflict is staged.
pub open spec fn continue_rebase_cmd() -> Seq<char> {
    "git rebase --continue"@
}

/// Count the commits on the local branch that the remote branch lacks.
pub open spec fn count_local_cmd(remote: Seq<char>, branch: Seq<char>) -> Seq<char> {
    "git rev-list --count "@ + remote + "/"@ + branch + ".."@ + branch
}

/// `git push <remote> <branch>`: publish the local branch.
pub open spec fn push_cmd(remote: Seq<char>, branch: Seq<char>) -> Seq<char> {
    "git push "@ + remote + " "@ + branch
}

/// Builds the commit command for an identity label and a timestamp.
pub fn commit_command(host: &str, timestamp: &str) -> (r: String)
    ensures
        r@ == commit_cmd(host@, timestamp@),
{
    String::from_str("git commit -m '").concat(host).concat(": ").concat(timestamp).concat("'")
}

pub(crate) fn checkout_command(branch: &str) -> (r: String)
    ensures
        r@ == checkout_cmd(branch@),
{
    String::from_str("git checkout ").concat(branch)
}

pub(crate) fn fetch_command(remote: &str, branch: &str) -> (r: String)
    ensures
        r@ == fetch_cmd(remote@, branch@),
{
    String::from_str("git fetch ").concat(remote).concat(" ").concat(branch)
}

pub(crate) fn count_remote_command(remote: &str, branch: &str) -> (r: String)
    ensures
        r@ == count_remote_cmd(remote@, branch@),
{
    String::from_str("git rev-list --count ").concat(branch).concat("..").concat(remote).concat(
        "/",
    ).concat(branch)
}

pub(crate) fn rebase_command(remote: &str, branch: &str) -> (r: String)
    ensures
        r@ == rebase_cmd(remote@, branch@),
{
    String::from_str("git rebase ").concat(remote).concat("/").concat(branch).concat(" || true")
}

pub(crate) fn show_base_command(file: &str) -> (r: String)
    ensures
        r@ == show_base_cmd(file@),
{
    String::from_str("git show :1:").concat(file).concat(" > ").concat(file).concat(".common")
}

pub(crate) fn show_ours_command(file: &str) -> (r: String)
    ensures
        r@ == show_ours_cmd(file@),
{
    String::from_str("git show :2:").concat(file).concat(" > ").concat(file).concat(".ours")
}

pub(crate) fn show_theirs_command(file: &str) -> (r: String)
    ensures
        r@ == show_theirs_cmd(file@),
{
    String::from_str("git show :3:").concat(file).concat(" > ").concat(file).concat(".theirs")
}

pub(crate) fn merge_file_command(file: &str) -> (r: String)
    ensures
        r@ == merge_file_cmd(file@),
{
    String::from_str("git merge-file -p --theirs ").concat(file).concat(".ours ").concat(
        file,
    ).concat(".common ").concat(file).concat(".theirs > ").concat(file)
}

pub(crate) fn stage_file_command(file: &str) -> (r: String)
    ensures
        r@ == stage_file_cmd(file@),
{
    String::from_str("git add ").concat(file)
}

pub(crate) fn cleanup_command(file: &str) -> (r: String)
    ensures
        r@ == cleanup_cmd(file@),
{
    String::from_str("rm ").concat(file).concat(".ours ").concat(file).concat(".common ").concat(
        file,
    ).concat(".theirs")
}

pub(crate) fn count_local_command(remote: &str, branch: &str) -> (r: String)
    ensures
        r@ == count_local_cmd(remote@, branch@),
{
    String::from_str("git rev-list --count ").concat(remote).concat("/").concat(branch).concat(
        "..",
    ).concat(branch)
}

pub(crate) fn push_command(remote: &str, branch: &str) -> (r: String)
    ensures
        r@ == push_cmd(remote@, branch@),
{
    String::from_str("git push ").concat(remote).concat(" ").concat(branch)
}

} // verus!
