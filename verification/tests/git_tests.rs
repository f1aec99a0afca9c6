use jcommit::git::{GitDiff, GitError};

fn repo() -> GitDiff {
    GitDiff::new(".", true).ok().unwrap()
}

#[test]
fn probe_success_builds_handle_with_path() {
    let g = GitDiff::new("/tmp/work", true).ok().unwrap();
    assert_eq!(g.repo_path(), "/tmp/work");
}

#[test]
fn probe_failure_is_not_a_repository() {
    let r = GitDiff::new("/nowhere", false);
    assert!(matches!(r, Err(GitError::NotARepository)));
}

#[test]
fn repo_check_args_are_exact() {
    assert_eq!(GitDiff::repo_check_args(), vec!["rev-parse", "--git-dir"]);
}

#[test]
fn staged_diff_args_select_staging_semantics() {
    let g = repo();
    assert_eq!(g.staged_diff_args(false), vec!["diff", "--cached"]);
    assert_eq!(g.staged_diff_args(true), vec!["diff", "HEAD"]);
}

#[test]
fn staged_diff_with_no_staged_changes_is_empty_not_an_error() {
    let g = repo();
    let r = g.staged_diff_result(true, String::new());
    assert_eq!(r.ok().unwrap(), "");
}

#[test]
fn staged_diff_output_passes_through_verbatim() {
    let g = repo();
    let diff = "diff --git a/a.txt b/a.txt\n-old line\n+new line\n context\n";
    let r = g.staged_diff_result(true, diff.to_string());
    assert_eq!(r.ok().unwrap(), diff);
}

#[test]
fn staged_diff_failure_is_not_a_repository() {
    let g = repo();
    let r = g.staged_diff_result(false, String::new());
    assert!(matches!(r, Err(GitError::NotARepository)));
}

#[test]
fn summary_diff_args_compare_base_to_head() {
    let g = repo();
    assert_eq!(g.summary_diff_args("main"), vec!["diff", "main", "HEAD"]);
}

#[test]
fn summary_diff_output_passes_through_verbatim() {
    let g = repo();
    let diff = "diff --git a/a.txt b/a.txt\n+both commits' changes\n";
    let r = g.summary_diff_result(true, diff.to_string());
    assert_eq!(r.ok().unwrap(), diff);
}

#[test]
fn summary_diff_failure_is_revision_not_found() {
    let g = repo();
    let r = g.summary_diff_result(false, String::new());
    assert!(matches!(r, Err(GitError::RevisionNotFound)));
}

#[test]
fn commit_args_carry_the_message_verbatim() {
    let g = repo();
    assert_eq!(g.commit_args("fix: x"), vec!["commit", "-m", "fix: x"]);
}

#[test]
fn commit_success_is_ok() {
    let g = repo();
    assert!(g.commit_result(true, String::new()).is_ok());
}

#[test]
fn commit_failure_carries_diagnostic() {
    let g = repo();
    let r = g.commit_result(false, "nothing to commit".to_string());
    match r {
        Err(GitError::CommitFailed(d)) => assert_eq!(d, "nothing to commit"),
        _ => panic!("expected a commit failure"),
    }
}

#[test]
fn add_all_args_are_exact() {
    let g = repo();
    assert_eq!(g.add_all_args(), vec!["add", "."]);
}

#[test]
fn add_all_failure_carries_diagnostic() {
    let g = repo();
    let r = g.add_all_result(false, "boom".to_string());
    match r {
        Err(GitError::AddFailed(d)) => assert_eq!(d, "boom"),
        _ => panic!("expected a staging failure"),
    }
}
