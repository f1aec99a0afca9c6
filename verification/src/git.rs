//! Decision logic of the version-control layer.
//!
//! Acquiring a diff and recording a commit are done by an external
//! version-control tool; running it is process I/O and lives outside this
//! library. What is verified here is the decision logic around those runs:
//! exactly which arguments each operation passes to the tool, and how each
//! outcome (exit status plus captured output) is turned into a result or an
//! error of the library.

use vstd::prelude::*;

verus! {

/// Errors of the version-control layer.
#[derive(Debug)]
pub enum GitError {
    /// The target path is not inside a version-controlled working copy.
    NotARepository,
    /// The base revision of a summary diff could not be resolved.
    RevisionNotFound,
    /// Staging changes failed; carries the tool's diagnostic text.
    AddFailed(String),
    /// Recording the commit failed; carries the tool's diagnostic text.
    CommitFailed(String),
}

/// A handle on a version-controlled working copy. It is built from the
/// outcome of a repository probe, so holding one means the probe succeeded.
pub struct GitDiff {
    repo_path: String,
}

impl GitDiff {
    /// The path of the working copy this handle points at.
    pub closed spec fn path(&self) -> Seq<char> {
        self.repo_path@
    }

    /// Arguments of the probe run that decides whether `path` is a
    /// repository: `rev-parse --git-dir`.
    pub fn repo_check_args() -> (args: Vec<String>)
        ensures
            args@.map_values(|a: String| a@) =~= seq!["rev-parse"@, "--git-dir"@],
    {
        let mut args: Vec<String> = Vec::new();
        args.push(String::from_str("rev-parse"));
        args.push(String::from_str("--git-dir"));
        args
    }

    /// Builds the handle from the probe's outcome: the path is accepted
    /// exactly when the probe succeeded.
    pub fn new(path: &str, repo_check_ok: bool) -> (r: Result<GitDiff, GitError>)
        ensures
            repo_check_ok ==> (r matches Ok(g) && g.path() == path@),
            !repo_check_ok ==> (r matches Err(e) && e is NotARepository),
    {
        if repo_check_ok {
            Ok(GitDiff { repo_path: String::from_str(path) })
        } else {
            Err(GitError::NotARepository)
        }
    }

    /// The working-copy path, for the caller that runs the tool there.
    pub fn repo_path(&self) -> (r: &str)
        ensures
            r@ == self.path(),
    {
        self.repo_path.as_str()
    }

    /// Arguments of the staged-diff run: `diff HEAD` when `all` is set
    /// (changes of the whole working tree against the last revision),
    /// `diff --cached` otherwise (staged changes only).
    pub fn staged_diff_args(&self, all: bool) -> (args: Vec<String>)
        ensures
            all ==> args@.map_values(|a: String| a@) =~= seq!["diff"@, "HEAD"@],
            !all ==> args@.map_values(|a: String| a@) =~= seq!["diff"@, "--cached"@],
    {
        let mut args: Vec<String> = Vec::new();
        args.push(String::from_str("diff"));
        if all {
            args.push(String::from_str("HEAD"));
        } else {
            args.push(String::from_str("--cached"));
        }
        args
    }

    /// Turns the staged-diff run's outcome into the diff text. A successful
    /// run hands its output through unchanged, even when it is empty: an
    /// empty diff is the caller's to reject, not an error of this layer.
    pub fn staged_diff_result(&self, success: bool, stdout: String) -> (r: Result<String, GitError>)
        ensures
            success ==> (r matches Ok(d) && d@ == stdout@),
            !success ==> (r matches Err(e) && e is NotARepository),
    {
        if success {
            Ok(stdout)
        } else {
            Err(GitError::NotARepository)
        }
    }

    /// Arguments of the summary-diff run: `diff {base} HEAD`, the changes
    /// between the base revision's tree and the current head's tree.
    pub fn summary_diff_args(&self, base: &str) -> (args: Vec<String>)
        ensures
            args@.map_values(|a: String| a@) =~= seq!["diff"@, base@, "HEAD"@],
    {
        let mut args: Vec<String> = Vec::new();
        args.push(String::from_str("diff"));
        args.push(String::from_str(base));
        args.push(String::from_str("HEAD"));
        args
    }

    /// Turns the summary-diff run's outcome into the diff text; a failed run
    /// means the base revision could not be resolved.
    pub fn summary_diff_result(&self, success: bool, stdout: String) -> (r: Result<String, GitError>)
        ensures
            success ==> (r matches Ok(d) && d@ == stdout@),
            !success ==> (r matches Err(e) && e is RevisionNotFound),
    {
        if success {
            Ok(stdout)
        } else {
            Err(GitError::RevisionNotFound)
        }
    }

    /// Arguments of the commit run: `commit -m {message}`, with the message
    /// handed to the tool exactly as given, unreformatted and untruncated.
    pub fn commit_args(&self, message: &str) -> (args: Vec<String>)
        ensures
            args@.map_values(|a: String| a@) =~= seq!["commit"@, "-m"@, message@],
    {
        let mut args: Vec<String> = Vec::new();
        args.push(String::from_str("commit"));
        args.push(String::from_str("-m"));
        args.push(String::from_str(message));
        args
    }

    /// Turns the commit run's outcome into a result: a failure carries the
    /// tool's diagnostic text unchanged.
    pub fn commit_result(&self, success: bool, stderr: String) -> (r: Result<(), GitError>)
        ensures
            success ==> r is Ok,
            !success ==> (r matches Err(e) && e matches GitError::CommitFailed(d) && d@ == stderr@),
    {
        if success {
            Ok(())
        } else {
            Err(GitError::CommitFailed(stderr))
        }
    }

    /// Arguments of the run that stages every pending change: `add .`.
    pub fn add_all_args(&self) -> (args: Vec<String>)
        ensures
            args@.map_values(|a: String| a@) =~= seq!["add"@, "."@],
    {
        let mut args: Vec<String> = Vec::new();
        args.push(String::from_str("add"));
        args.push(String::from_str("."));
        args
    }

    /// Turns the staging run's outcome into a result: a failure carries the
    /// tool's diagnostic text unchanged.
    pub fn add_all_result(&self, success: bool, stderr: String) -> (r: Result<(), GitError>)
        ensures
            success ==> r is Ok,
            !success ==> (r matches Err(e) && e matches GitError::AddFailed(d) && d@ == stderr@),
    {
        if success {
            Ok(())
        } else {
            Err(GitError::AddFailed(stderr))
        }
    }
}

} // verus!
