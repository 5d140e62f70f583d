//! Integration tests: the operations driven against real repositories built
//! in temporary directories. All repository content is created through the
//! object store itself (blobs, trees, commits), never by writing files.

use std::path::Path;

use gitsync::ops::{
    diff_stats, get_changed_files_in_commit, get_file_diff_in_commit, git_branches, git_checkout,
    git_clone, git_commit, git_commit_history, git_configure_remote, git_init, git_new_branch,
    git_pull, git_push, has_git_remote_url, has_uncommitted_changes, has_unpushed_commits,
    is_git_repository,
};
use gitsync::types::{GResultEnum, GitErrorKind};

fn sig(t: i64) -> git2::Signature<'static> {
    git2::Signature::new("Test User", "test@example.com", &git2::Time::new(t, 0)).unwrap()
}

fn new_repo() -> (tempfile::TempDir, git2::Repository, String) {
    let dir = tempfile::tempdir().unwrap();
    let path = dir.path().to_str().unwrap().to_string();
    git_init(path.clone()).unwrap();
    let repo = git2::Repository::open(&path).unwrap();
    {
        let mut cfg = repo.config().unwrap();
        cfg.set_str("user.name", "Test User").unwrap();
        cfg.set_str("user.email", "test@example.com").unwrap();
    }
    (dir, repo, path)
}

/// Creates a commit whose tree holds exactly `files`, updating `update_ref`.
fn make_commit(
    repo: &git2::Repository,
    update_ref: Option<&str>,
    parents: &[&git2::Commit<'_>],
    files: &[(&str, &str)],
    t: i64,
    msg: &str,
) -> git2::Oid {
    let mut tb = repo.treebuilder(None).unwrap();
    for (name, content) in files {
        let oid = repo.blob(content.as_bytes()).unwrap();
        tb.insert(*name, oid, 0o100644).unwrap();
    }
    let tree = repo.find_tree(tb.write().unwrap()).unwrap();
    let s = sig(t);
    repo.commit(update_ref, &s, &s, msg, &tree, parents).unwrap()
}

fn head_branch(repo: &git2::Repository) -> String {
    repo.head().unwrap().shorthand().unwrap().to_string()
}

#[test]
fn init_and_is_repository() {
    let dir = tempfile::tempdir().unwrap();
    let path = dir.path().to_str().unwrap().to_string();
    assert_eq!(is_git_repository(path.clone()).unwrap(), false);
    git_init(path.clone()).unwrap();
    assert_eq!(is_git_repository(path.clone()).unwrap(), true);
    assert_eq!(has_git_remote_url(path).unwrap(), false);

    let missing = git_init("/no/such/directory/anywhere".to_string());
    let e = missing.unwrap_err();
    assert_eq!(e.kind, GitErrorKind::StoreError);
    assert!(e.message().contains("does not exist"));
}

#[test]
fn end_to_end_diff_stats() {
    let (_d, repo, _path) = new_repo();
    let c1 = make_commit(&repo, Some("HEAD"), &[], &[("a.txt", "1")], 0, "first");
    let c1c = repo.find_commit(c1).unwrap();
    let c2 = make_commit(&repo, Some("HEAD"), &[&c1c], &[("a.txt", "2")], 100, "second");
    let stats = diff_stats(&repo, &c1.to_string(), &c2.to_string()).unwrap();
    assert_eq!(stats.len(), 1);
    assert_eq!(stats[0].path, "a.txt");
    assert_eq!(stats[0].lines_added, 1);
    assert_eq!(stats[0].lines_removed, 1);
}

#[test]
fn diff_stats_antisymmetric_magnitude() {
    let (_d, repo, _path) = new_repo();
    let c1 = make_commit(&repo, Some("HEAD"), &[], &[("a.txt", "1\n")], 0, "first");
    let c1c = repo.find_commit(c1).unwrap();
    let c2 = make_commit(
        &repo,
        Some("HEAD"),
        &[&c1c],
        &[("a.txt", "1\n"), ("b.txt", "x\ny\n")],
        100,
        "second",
    );
    let forward = diff_stats(&repo, &c1.to_string(), &c2.to_string()).unwrap();
    let backward = diff_stats(&repo, &c2.to_string(), &c1.to_string()).unwrap();
    assert_eq!(forward.len(), 1);
    assert_eq!(backward.len(), 1);
    assert_eq!(forward[0].path, "b.txt");
    assert_eq!(backward[0].path, "b.txt");
    assert_eq!(forward[0].lines_added, 2);
    assert_eq!(forward[0].lines_removed, 0);
    assert_eq!(backward[0].lines_added, forward[0].lines_removed);
    assert_eq!(backward[0].lines_removed, forward[0].lines_added);
}

#[test]
fn checkout_unknown_target_not_found() {
    let (_d, repo, path) = new_repo();
    let c1 = make_commit(&repo, Some("HEAD"), &[], &[("a.txt", "1")], 0, "first");
    let branch = head_branch(&repo);
    let msg = git_checkout(path.clone(), branch.clone()).unwrap();
    assert_eq!(msg, format!("Checked out to local branch {}", branch));

    let detached = git_checkout(path.clone(), c1.to_string()).unwrap();
    assert_eq!(detached, format!("Checked out to commit '{}'", c1));
    assert!(repo.head_detached().unwrap());
    // A detached HEAD has nothing to push.
    assert_eq!(has_unpushed_commits(path.clone()).unwrap(), false);

    let err = git_checkout(path, "zzz".to_string()).unwrap_err();
    assert_eq!(err.kind, GitErrorKind::TargetNotFound);
    assert!(err.message().contains("zzz"));
}

#[test]
fn pull_no_remote_configured() {
    let (_d, repo, path) = new_repo();
    make_commit(&repo, Some("HEAD"), &[], &[("a.txt", "1")], 0, "first");
    let r = git_pull(path).unwrap();
    assert!(matches!(r.status, GResultEnum::NoRemoteConfigured));
    assert!(r.result.is_none());
}

#[test]
fn pull_branch_not_on_remote() {
    let (_d, repo, path) = new_repo();
    make_commit(&repo, Some("HEAD"), &[], &[("a.txt", "1")], 0, "first");
    let remote_dir = tempfile::tempdir().unwrap();
    let remote_path = remote_dir.path().to_str().unwrap().to_string();
    git2::Repository::init_bare(&remote_path).unwrap();
    git_configure_remote(path.clone(), "origin".to_string(), remote_path).unwrap();
    assert_eq!(has_git_remote_url(path.clone()).unwrap(), true);
    let r = git_pull(path).unwrap();
    assert!(matches!(r.status, GResultEnum::BranchNotExistsRemote));
    assert!(r.result.is_none());
}

#[test]
fn pull_up_to_date_no_mutation() {
    let (_d, repo, path) = new_repo();
    let c1 = make_commit(&repo, Some("HEAD"), &[], &[("a.txt", "1")], 0, "first");
    let remote_dir = tempfile::tempdir().unwrap();
    let remote_path = remote_dir.path().join("clone");
    let remote_path = remote_path.to_str().unwrap().to_string();
    assert_eq!(git_clone(path.clone(), remote_path.clone()).unwrap(), true);
    git_configure_remote(path.clone(), "origin".to_string(), remote_path).unwrap();

    let r = git_pull(path).unwrap();
    assert!(matches!(r.status, GResultEnum::AlreadyUpToDate));
    assert!(r.result.is_none());
    assert_eq!(repo.head().unwrap().target().unwrap(), c1);
}

#[test]
fn pull_up_to_date_when_remote_behind() {
    let (_d, repo, path) = new_repo();
    let c1 = make_commit(&repo, Some("HEAD"), &[], &[("a.txt", "1")], 0, "first");
    let remote_dir = tempfile::tempdir().unwrap();
    let remote_path = remote_dir.path().join("clone");
    let remote_path = remote_path.to_str().unwrap().to_string();
    git_clone(path.clone(), remote_path.clone()).unwrap();
    git_configure_remote(path.clone(), "origin".to_string(), remote_path).unwrap();

    // Advance the local side only: the remote head is an ancestor.
    let c1c = repo.find_commit(c1).unwrap();
    let c2 = make_commit(&repo, Some("HEAD"), &[&c1c], &[("a.txt", "2")], 100, "second");

    let r = git_pull(path).unwrap();
    assert!(matches!(r.status, GResultEnum::AlreadyUpToDate));
    assert!(r.result.is_none());
    assert_eq!(repo.head().unwrap().target().unwrap(), c2);
}

#[test]
fn checkout_creates_branch_from_remote() {
    let (_d, repo, path) = new_repo();
    let c1 = make_commit(&repo, Some("HEAD"), &[], &[("a.txt", "1")], 0, "first");
    let remote_dir = tempfile::tempdir().unwrap();
    let remote_path = remote_dir.path().join("clone");
    let remote_path = remote_path.to_str().unwrap().to_string();
    git_clone(path.clone(), remote_path.clone()).unwrap();

    // A branch that exists only on the remote.
    let remote = git2::Repository::open(&remote_path).unwrap();
    let rc1 = remote.find_commit(c1).unwrap();
    remote.branch("feature", &rc1, false).unwrap();

    git_configure_remote(path.clone(), "origin".to_string(), remote_path).unwrap();
    let msg = git_checkout(path, "feature".to_string()).unwrap();
    assert_eq!(msg, "Checked out to remote branch feature");
    assert_eq!(head_branch(&repo), "feature");
    let cfg = repo.config().unwrap();
    assert_eq!(cfg.get_string("branch.feature.remote").unwrap(), "origin");
    assert_eq!(cfg.get_string("branch.feature.merge").unwrap(), "refs/heads/feature");
    assert_eq!(repo.head().unwrap().target().unwrap(), c1);
}

#[test]
fn pull_fast_forward_moves_head() {
    let (_d, repo, path) = new_repo();
    let c1 = make_commit(&repo, Some("HEAD"), &[], &[("a.txt", "1")], 0, "first");
    let remote_dir = tempfile::tempdir().unwrap();
    let remote_path = remote_dir.path().join("clone");
    let remote_path = remote_path.to_str().unwrap().to_string();
    git_clone(path.clone(), remote_path.clone()).unwrap();
    git_configure_remote(path.clone(), "origin".to_string(), remote_path.clone()).unwrap();

    // Advance the remote by one commit.
    let remote = git2::Repository::open(&remote_path).unwrap();
    let rc1 = remote.find_commit(c1).unwrap();
    let c2 = make_commit(&remote, Some("HEAD"), &[&rc1], &[("a.txt", "2")], 100, "second");

    let branch = head_branch(&repo);
    let r = git_pull(path.clone()).unwrap();
    assert!(matches!(r.status, GResultEnum::Success));
    let info = r.result.unwrap();
    assert_eq!(info.num_commits, 1);
    assert_eq!(info.old_commit_id, c1.to_string()[..7].to_string());
    assert_eq!(info.new_commit_id, c2.to_string()[..7].to_string());
    assert_eq!(info.file_changes.len(), 1);
    assert_eq!(info.file_changes[0].path, "a.txt");
    assert_eq!(info.file_changes[0].lines_added, 1);
    assert_eq!(info.file_changes[0].lines_removed, 1);

    // Post-pull local HEAD equals the pre-pull remote-tracking head, and the
    // working tree matches it exactly.
    assert_eq!(repo.head().unwrap().target().unwrap(), c2);
    let tracking = repo.find_reference(&format!("refs/remotes/origin/{}", branch)).unwrap();
    assert_eq!(tracking.target().unwrap(), c2);
    assert_eq!(has_uncommitted_changes(path).unwrap(), false);
}

#[test]
fn pull_conflict_resolves_to_theirs() {
    let (_d, repo, path) = new_repo();
    let c1 = make_commit(&repo, Some("HEAD"), &[], &[("a.txt", "1")], 0, "base");
    let remote_dir = tempfile::tempdir().unwrap();
    let remote_path = remote_dir.path().join("clone");
    let remote_path = remote_path.to_str().unwrap().to_string();
    git_clone(path.clone(), remote_path.clone()).unwrap();
    git_configure_remote(path.clone(), "origin".to_string(), remote_path.clone()).unwrap();

    // Divergent edits of the same file on both sides.
    let c1c = repo.find_commit(c1).unwrap();
    make_commit(&repo, Some("HEAD"), &[&c1c], &[("a.txt", "local")], 100, "local edit");
    let remote = git2::Repository::open(&remote_path).unwrap();
    let rc1 = remote.find_commit(c1).unwrap();
    make_commit(&remote, Some("HEAD"), &[&rc1], &[("a.txt", "remote")], 100, "remote edit");

    let err = git_pull(path).unwrap_err();
    assert_eq!(err.kind, GitErrorKind::ObjectNotFound);

    // Every conflicting path is staged with content equal to the incoming
    // remote blob.
    let idx = repo.index().unwrap();
    let entry = idx.get_path(Path::new("a.txt"), 0).unwrap();
    let staged = repo.find_blob(entry.id).unwrap();
    assert_eq!(staged.content(), b"remote");
}

#[test]
fn pull_clean_merge_creates_merge_commit() {
    let (_d, repo, path) = new_repo();
    let c1 = make_commit(&repo, Some("HEAD"), &[], &[("a.txt", "1")], 0, "base");
    let remote_dir = tempfile::tempdir().unwrap();
    let remote_path = remote_dir.path().join("clone");
    let remote_path = remote_path.to_str().unwrap().to_string();
    git_clone(path.clone(), remote_path.clone()).unwrap();
    git_configure_remote(path.clone(), "origin".to_string(), remote_path.clone()).unwrap();

    // Divergent but non-conflicting: one side adds a file, the other edits.
    let c1c = repo.find_commit(c1).unwrap();
    let local =
        make_commit(&repo, Some("HEAD"), &[&c1c], &[("a.txt", "1"), ("c.txt", "x")], 100, "add c");
    let remote = git2::Repository::open(&remote_path).unwrap();
    let rc1 = remote.find_commit(c1).unwrap();
    let theirs = make_commit(&remote, Some("HEAD"), &[&rc1], &[("a.txt", "2")], 100, "edit a");

    let r = git_pull(path).unwrap();
    assert!(matches!(r.status, GResultEnum::Success));
    let info = r.result.unwrap();
    assert_eq!(info.num_commits, 2);

    let head = repo.head().unwrap().peel_to_commit().unwrap();
    assert_eq!(head.message().unwrap(), "Merge commit");
    assert_eq!(head.parent_count(), 2);
    assert_eq!(head.parent_id(0).unwrap(), local);
    assert_eq!(head.parent_id(1).unwrap(), theirs);
    assert_eq!(info.new_commit_id, head.id().to_string()[..7].to_string());
}

#[test]
fn pull_remote_not_found() {
    let (_d, repo, path) = new_repo();
    make_commit(&repo, Some("HEAD"), &[], &[("a.txt", "1")], 0, "first");
    let branch = head_branch(&repo);
    let mut cfg = repo.config().unwrap();
    cfg.set_str(&format!("branch.{}.remote", branch), "nosuch").unwrap();
    let err = git_pull(path).unwrap_err();
    assert_eq!(err.kind, GitErrorKind::RemoteNotFound);
}

#[test]
fn configure_remote_network_error() {
    let (_d, repo, path) = new_repo();
    make_commit(&repo, Some("HEAD"), &[], &[("a.txt", "1")], 0, "first");
    let err = git_configure_remote(
        path,
        "origin".to_string(),
        "/no/such/remote/path".to_string(),
    )
    .unwrap_err();
    assert_eq!(err.kind, GitErrorKind::NetworkError);
}

#[test]
fn commit_history_bounded_and_descending() {
    let (_d, repo, path) = new_repo();
    let c1 = make_commit(&repo, Some("HEAD"), &[], &[("a.txt", "1")], 0, "first");
    let c1c = repo.find_commit(c1).unwrap();
    let c2 = make_commit(&repo, Some("HEAD"), &[&c1c], &[("a.txt", "2")], 100, "second");
    let c2c = repo.find_commit(c2).unwrap();
    let c3 = make_commit(&repo, Some("HEAD"), &[&c2c], &[("a.txt", "3")], 200, "third");

    let two = git_commit_history(path.clone(), 2).unwrap();
    assert_eq!(two.len(), 2);
    assert_eq!(two[0].full_id, c3.to_string());
    assert_eq!(two[1].full_id, c2.to_string());
    assert_eq!(two[0].summary, "third");
    assert!(two[0].full_id.starts_with(&two[0].short_id));
    assert_eq!(two[0].time, "1970-01-01T00:03:20+00:00");
    assert_eq!(two[1].time, "1970-01-01T00:01:40+00:00");

    let all = git_commit_history(path.clone(), 10).unwrap();
    assert_eq!(all.len(), 3);
    assert_eq!(all[2].full_id, c1.to_string());

    let none = git_commit_history(path, 0).unwrap();
    assert_eq!(none.len(), 0);
}

#[test]
fn commit_history_no_head() {
    let (_d, _repo, path) = new_repo();
    let err = git_commit_history(path, 5).unwrap_err();
    assert_eq!(err.kind, GitErrorKind::NoHead);
}

#[test]
fn git_commit_stages_and_commits() {
    let (_d, repo, path) = new_repo();
    let c1 = make_commit(&repo, Some("HEAD"), &[], &[("a.txt", "1")], 0, "first");
    // Materialize a different tree into the working tree and index without
    // moving HEAD, then commit it through the library.
    let other = make_commit(&repo, None, &[], &[("a.txt", "2"), ("b.txt", "x")], 50, "staging");
    let other_tree = repo.find_commit(other).unwrap().tree().unwrap();
    let mut co = git2::build::CheckoutBuilder::new();
    co.force();
    repo.checkout_tree(other_tree.as_object(), Some(&mut co)).unwrap();

    git_commit(path, "from the library".to_string()).unwrap();
    let head = repo.head().unwrap().peel_to_commit().unwrap();
    assert_eq!(head.message().unwrap(), "from the library");
    assert_eq!(head.parent_count(), 1);
    assert_eq!(head.parent_id(0).unwrap(), c1);
    assert_eq!(head.tree_id(), other_tree.id());
}

#[test]
fn branches_listing() {
    let (_d, repo, path) = new_repo();
    make_commit(&repo, Some("HEAD"), &[], &[("a.txt", "1")], 0, "first");
    let branch = head_branch(&repo);
    let remote_dir = tempfile::tempdir().unwrap();
    let remote_path = remote_dir.path().join("clone");
    let remote_path = remote_path.to_str().unwrap().to_string();
    git_clone(path.clone(), remote_path.clone()).unwrap();
    git_configure_remote(path.clone(), "origin".to_string(), remote_path).unwrap();

    let branches = git_branches(path).unwrap();
    assert_eq!(branches[0].branch_name, branch);
    assert_eq!(branches[0].branch_type, "local");
    assert!(branches[0].is_current);
    let remote_name = format!("origin/{}", branch);
    assert!(branches.iter().any(|b| b.branch_name == remote_name && b.branch_type == "remote"
        && !b.is_current));
    assert!(!branches.iter().any(|b| b.branch_name == "origin/HEAD"));
}

#[test]
fn branches_empty_repository() {
    let (_d, _repo, path) = new_repo();
    let branches = git_branches(path).unwrap();
    assert!(branches.is_empty());
}

#[test]
fn push_gate_and_success() {
    let (_d, repo, path) = new_repo();
    let c1 = make_commit(&repo, Some("HEAD"), &[], &[("a.txt", "1")], 0, "first");
    let c1c = repo.find_commit(c1).unwrap();
    let c2 = make_commit(&repo, Some("HEAD"), &[&c1c], &[("a.txt", "2")], 100, "second");
    let branch = head_branch(&repo);

    // No remote configured at all.
    assert!(matches!(git_push(path.clone()).unwrap(), GResultEnum::NoRemoteConfigured));

    let remote_dir = tempfile::tempdir().unwrap();
    let remote_path = remote_dir.path().to_str().unwrap().to_string();
    git2::Repository::init_bare(&remote_path).unwrap();
    {
        let mut cfg = repo.config().unwrap();
        cfg.set_str("remote.origin.url", &remote_path).unwrap();
        cfg.set_str(&format!("branch.{}.remote", branch), "origin").unwrap();
        cfg.set_str(&format!("branch.{}.merge", branch), &format!("refs/heads/{}", branch))
            .unwrap();
    }

    // The tracking ref is behind the local head: the push is refused.
    repo.reference(&format!("refs/remotes/origin/{}", branch), c1, true, "test").unwrap();
    assert!(matches!(git_push(path.clone()).unwrap(), GResultEnum::UnPushedChanges));
    assert_eq!(has_unpushed_commits(path.clone()).unwrap(), true);

    // The tracking ref matches the local head: the push runs.
    repo.reference(&format!("refs/remotes/origin/{}", branch), c2, true, "test").unwrap();
    assert_eq!(has_unpushed_commits(path.clone()).unwrap(), false);
    assert!(matches!(git_push(path).unwrap(), GResultEnum::Success));
    let remote = git2::Repository::open(&remote_path).unwrap();
    let pushed = remote.find_reference(&format!("refs/heads/{}", branch)).unwrap();
    assert_eq!(pushed.target().unwrap(), c2);
}

#[test]
fn new_branch_switches_and_inherits_remote() {
    let (_d, repo, path) = new_repo();
    make_commit(&repo, Some("HEAD"), &[], &[("a.txt", "1")], 0, "first");
    let branch = head_branch(&repo);
    {
        let mut cfg = repo.config().unwrap();
        cfg.set_str(&format!("branch.{}.remote", branch), "origin").unwrap();
    }
    git_new_branch(path, "feature".to_string()).unwrap();
    assert_eq!(head_branch(&repo), "feature");
    let cfg = repo.config().unwrap();
    assert_eq!(cfg.get_string("branch.feature.remote").unwrap(), "origin");
    assert_eq!(cfg.get_string("branch.feature.merge").unwrap(), "refs/heads/feature");
}

#[test]
fn tracking_read_fails_without_head() {
    let (_d, _repo, path) = new_repo();
    let err = git_pull(path).unwrap_err();
    assert_eq!(err.kind, GitErrorKind::ConfigMissing);
}

#[test]
fn changed_files_and_patch_text() {
    let (_d, repo, path) = new_repo();
    let c1 = make_commit(&repo, Some("HEAD"), &[], &[("a.txt", "1\n")], 0, "first");
    let c1c = repo.find_commit(c1).unwrap();
    let c2 = make_commit(&repo, Some("HEAD"), &[&c1c], &[("a.txt", "2\n")], 100, "second");

    let root_files = get_changed_files_in_commit(path.clone(), c1.to_string()).unwrap();
    assert!(root_files.is_empty());
    let files = get_changed_files_in_commit(path.clone(), c2.to_string()).unwrap();
    assert_eq!(files, vec!["a.txt".to_string()]);

    // The patch text carries the line contents without their markers, as the
    // print callback hands them over.
    let patch = get_file_diff_in_commit(path, c2.to_string(), "a.txt".to_string()).unwrap();
    assert!(patch.contains("diff --git"));
    assert!(patch.contains("a.txt"));
    assert!(patch.contains("1\n"));
    assert!(patch.contains("2\n"));
}

#[test]
fn clone_copies_branch() {
    let (_d, repo, path) = new_repo();
    let c1 = make_commit(&repo, Some("HEAD"), &[], &[("a.txt", "1")], 0, "first");
    let dest_dir = tempfile::tempdir().unwrap();
    let dest = dest_dir.path().join("clone");
    let dest = dest.to_str().unwrap().to_string();
    assert_eq!(git_clone(path, dest.clone()).unwrap(), true);
    let cloned = git2::Repository::open(&dest).unwrap();
    assert_eq!(cloned.head().unwrap().target().unwrap(), c1);
}

#[test]
fn uncommitted_changes_detection() {
    let (_d, repo, path) = new_repo();
    make_commit(&repo, Some("HEAD"), &[], &[("a.txt", "1")], 0, "first");
    // The commit exists only in the object store; the working tree lacks the
    // file, which reads as an uncommitted deletion.
    assert_eq!(has_uncommitted_changes(path.clone()).unwrap(), true);
    let head_tree = repo.head().unwrap().peel_to_commit().unwrap().tree().unwrap();
    let mut co = git2::build::CheckoutBuilder::new();
    co.force();
    repo.checkout_tree(head_tree.as_object(), Some(&mut co)).unwrap();
    assert_eq!(has_uncommitted_changes(path).unwrap(), false);
}
