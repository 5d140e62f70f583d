//! The synchronization operations. Each takes a repository path (or an open
//! handle), drives the trusted store interface, and makes every policy
//! decision through the verified functions of [`crate::policy`],
//! [`crate::strutil`] and [`crate::diffstat`].

use crate::diffstat::aggregate_changes;
use crate::policy::{
    any_dirty, checkout_choice, classify_analysis, pick_winner, pull_check, push_gate,
    range_nonempty, spec_conflict_ids_hex, spec_winner, spec_winner_paths_differ,
    unpushed_precheck, upstream_gate, PullCheck,
};
use crate::store;
use crate::strutil::{
    concat2, concat3, first_n, spec_first_n, spec_has_prefix, strip_prefix_or_self,
};
use crate::types::{
    BranchInfo, CheckoutChoice, CheckoutMode, CommitInfo, ConflictEntry, CurrentBranchInfo,
    DiffPolicy, GResult, GResultEnum, GitError, GitErrorKind, MergeAnalysis, PullUpdateInfo,
};
use vstd::prelude::*;
use vstd::string::StringExecFns;

verus! {

/// Initializes a repository at the path, which must already exist: a missing
/// path is refused with a message naming it, and nothing is created. Every
/// failure carries the store-error kind.
pub fn git_init(repo_path: String) -> (r: Result<(), GitError>)
    ensures
        r is Err ==> r->Err_0.kind == GitErrorKind::StoreError,
{
    if !store::path_exists(&repo_path) {
        return Err(GitError::new(
            GitErrorKind::StoreError,
            concat3("Path '", repo_path.as_str(), "' does not exist."),
        ));
    }
    store::init_repository(&repo_path)
}

/// Whether the path opens as a repository. Never an error: failure to open
/// is the negative answer.
pub fn is_git_repository(repo_path: String) -> (r: Result<bool, GitError>)
    ensures
        r is Ok,
{
    match store::open_repository(&repo_path) {
        Ok(_) => Ok(true),
        Err(_) => Ok(false),
    }
}

/// Whether at least one remote is configured.
pub fn has_git_remote_url(repo_path: String) -> (r: Result<bool, GitError>)
{
    let repo = store::open_repository(&repo_path)?;
    let names = store::remote_names(&repo)?;
    Ok(names.len() > 0)
}

/// The commit id a head resolved to; absent, the given failure kind with a
/// fixed message.
fn require_commit(target: Option<String>, kind: GitErrorKind) -> (r: Result<String, GitError>)
    ensures
        r is Ok <==> target is Some,
        r is Ok ==> r->Ok_0 == target->0,
        r is Err ==> r->Err_0.kind == kind && r->Err_0.message@ == "Failed to get HEAD commit ID"@,
{
    match target {
        Option::Some(t) => Ok(t),
        Option::None => Err(GitError::new(
            kind,
            String::from_str("Failed to get HEAD commit ID"),
        )),
    }
}

/// The tracking association of the branch HEAD points at. The remote name
/// is empty when the branch has no upstream configured; callers must check
/// this before any network operation. Every failure — no HEAD, no commit, or
/// an unreadable configuration — carries the missing-configuration kind.
pub fn get_current_branch_info(repo: &git2::Repository) -> (r: Result<CurrentBranchInfo, GitError>)
    ensures
        r is Err ==> r->Err_0.kind == GitErrorKind::ConfigMissing,
{
    let (branch_name, target, _is_branch) = match store::head_info(repo) {
        Ok(t) => t,
        Err(e) => {
            return Err(GitError::new(GitErrorKind::ConfigMissing, e.message));
        },
    };
    let commit_id = require_commit(target, GitErrorKind::ConfigMissing)?;
    let key = concat3("branch.", branch_name.as_str(), ".remote");
    let remote_name = match store::config_get(repo, &key) {
        Ok(Option::Some(v)) => v,
        Ok(Option::None) => String::new(),
        Err(e) => {
            return Err(e);
        },
    };
    Ok(CurrentBranchInfo { commit_id, remote_name, branch_name })
}

/// Stages every working-tree path into the index, writes the index, and
/// returns the id of the tree it writes. Every failure carries the
/// store-error kind.
pub fn git_add(repo: &git2::Repository) -> (r: Result<String, GitError>)
    ensures
        r is Err ==> r->Err_0.kind == GitErrorKind::StoreError,
{
    store::stage_all_and_write_tree(repo)
}

/// Stages everything and commits it on HEAD with the given message,
/// parented on the current branch head when there is one. It can fail only
/// through the store: a store-level failure, a missing object, or a missing
/// commit signature.
pub fn git_commit(repo_path: String, message: String) -> (r: Result<(), GitError>)
    ensures
        r is Err ==> (r->Err_0.kind == GitErrorKind::StoreError || r->Err_0.kind
            == GitErrorKind::ObjectNotFound || r->Err_0.kind == GitErrorKind::SignatureMissing),
{
    let repo = store::open_repository(&repo_path)?;
    let tree_hex = git_add(&repo)?;
    let parent = store::head_parent_commit(&repo)?;
    let _ = store::commit_on_head(&repo, &tree_hex, &message, parent.as_ref(), Option::None)?;
    Ok(())
}

/// Whether the working tree or index holds any uncommitted change.
pub fn has_uncommitted(repo_path: String) -> (r: Result<bool, GitError>)
{
    let repo = store::open_repository(&repo_path)?;
    let entries = store::status_entries(&repo)?;
    Ok(any_dirty(&entries))
}

/// See [`has_uncommitted`].
pub fn has_uncommitted_changes(repo_path: String) -> (r: Result<bool, GitError>)
{
    has_uncommitted(repo_path)
}

/// Clones the repository at the URL into the destination.
pub fn git_clone(repo_url: String, destination: String) -> (r: Result<bool, GitError>)
    ensures
        r is Ok ==> r->Ok_0 == true,
{
    store::clone_repository(&repo_url, &destination)?;
    Ok(true)
}

/// The commit id advertised for `refs/heads/<branch_name>` among the listed
/// remote refs, if the branch exists there.
pub fn find_branch_in_refs(refs: &Vec<(String, String)>, branch_name: &String) -> (r: Option<
    String,
>)
    ensures
        match r {
            Option::Some(oid) => exists|i: int|
                0 <= i < refs@.len() && (#[trigger] refs@[i]).0@ == "refs/heads/"@ + branch_name@
                    && refs@[i].1@ == oid@,
            Option::None => forall|i: int|
                0 <= i < refs@.len() ==> (#[trigger] refs@[i]).0@ != "refs/heads/"@ + branch_name@,
        },
{
    let full = concat2("refs/heads/", branch_name.as_str());
    let mut i: usize = 0;
    while i < refs.len()
        invariant
            i <= refs@.len(),
            full@ == "refs/heads/"@ + branch_name@,
            forall|j: int| 0 <= j < i ==> (#[trigger] refs@[j]).0@ != "refs/heads/"@ + branch_name@,
        decreases refs@.len() - i,
    {
        if refs[i].0 == full {
            return Option::Some(refs[i].1.clone());
        }
        i = i + 1;
    }
    Option::None
}

/// The stage-0 entries an index holds after the conflict resolution loop has
/// staged each conflict's winner in order: later conflicts on the same path
/// overwrite earlier ones; a conflict without any side stages nothing.
pub open spec fn stage_fold(m: Map<Seq<u8>, Seq<char>>, cs: Seq<ConflictEntry>) -> Map<
    Seq<u8>,
    Seq<char>,
>
    decreases cs.len(),
{
    if cs.len() == 0 {
        m
    } else {
        let prev = stage_fold(m, cs.drop_last());
        match spec_winner(cs.last()) {
            Option::Some(w) => prev.insert(w.path@, w.id@),
            Option::None => prev,
        }
    }
}

/// Law: conflict resolution stages every conflicting path at its winner's
/// blob — the incoming remote version when it exists, else the local
/// version, else the ancestor — provided no later conflict resolves to the
/// same path (with distinct conflict paths, none does).
pub proof fn lemma_resolution_stages_winner(
    m: Map<Seq<u8>, Seq<char>>,
    cs: Seq<ConflictEntry>,
    j: int,
)
    requires
        0 <= j < cs.len(),
        spec_winner(cs[j]) is Some,
        forall|k: int|
            j < k < cs.len() ==> (spec_winner(#[trigger] cs[k]) is Some ==> spec_winner(
                cs[k],
            )->0.path@ != spec_winner(cs[j])->0.path@),
    ensures
        stage_fold(m, cs).contains_key(spec_winner(cs[j])->0.path@),
        stage_fold(m, cs)[spec_winner(cs[j])->0.path@] == spec_winner(cs[j])->0.id@,
    decreases cs.len(),
{
    if j == cs.len() - 1 {
        assert(cs.last() == cs[j]);
    } else {
        assert(cs.drop_last()[j] == cs[j]);
        assert(forall|k: int| j < k < cs.len() - 1 ==> cs.drop_last()[k] == cs[k]);
        lemma_resolution_stages_winner(m, cs.drop_last(), j);
        assert(cs.last() == cs[cs.len() - 1]);
    }
}

/// Stages the winner of every conflict, in order: the resulting stage-0
/// entries are exactly the fold of the winners over the entries the index
/// held before — so, the conflicts' paths being distinct, every conflicting
/// path ends up staged at its winner's blob.
pub fn resolve_conflicts(idx: &mut git2::Index, conflicts: &Vec<ConflictEntry>) -> (r: Result<
    (),
    GitError,
>)
    requires
        forall|i: int| 0 <= i < conflicts@.len() ==> spec_conflict_ids_hex(#[trigger] conflicts@[i]),
        forall|a: int, b: int|
            0 <= a < b < conflicts@.len() ==> spec_winner_paths_differ(
                conflicts@[a],
                conflicts@[b],
            ),
    ensures
        r is Ok ==> store::index_stage0(*final(idx)) == stage_fold(
            store::index_stage0(*old(idx)),
            conflicts@,
        ),
        r is Ok ==> forall|j: int|
            0 <= j < conflicts@.len() && spec_winner(#[trigger] conflicts@[j]) is Some
                ==> store::index_stage0(*final(idx)).contains_key(
                spec_winner(conflicts@[j])->0.path@,
            ) && store::index_stage0(*final(idx))[spec_winner(conflicts@[j])->0.path@]
                == spec_winner(conflicts@[j])->0.id@,
{
    let ghost m0 = store::index_stage0(*idx);
    let mut i: usize = 0;
    while i < conflicts.len()
        invariant
            i <= conflicts@.len(),
            store::index_stage0(*idx) == stage_fold(m0, conflicts@.take(i as int)),
            forall|k: int|
                0 <= k < conflicts@.len() ==> spec_conflict_ids_hex(#[trigger] conflicts@[k]),
        decreases conflicts@.len() - i,
    {
        proof {
            assert(conflicts@.take(i + 1).drop_last() =~= conflicts@.take(i as int));
            assert(conflicts@.take(i + 1).last() == conflicts@[i as int]);
        }
        match pick_winner(&conflicts[i]) {
            Option::Some(w) => {
                proof {
                    let c = conflicts@[i as int];
                    assert(spec_winner(c) == c.theirs || spec_winner(c) == c.ours || spec_winner(
                        c,
                    ) == c.ancestor);
                }
                store::index_stage(idx, &w.path, &w.id, w.mode)?;
            },
            Option::None => {},
        }
        i = i + 1;
    }
    proof {
        assert(conflicts@.take(conflicts@.len() as int) =~= conflicts@);
        assert forall|j: int|
            0 <= j < conflicts@.len() && spec_winner(#[trigger] conflicts@[j]) is Some implies
            stage_fold(m0, conflicts@).contains_key(spec_winner(conflicts@[j])->0.path@)
                && stage_fold(m0, conflicts@)[spec_winner(conflicts@[j])->0.path@] == spec_winner(
                conflicts@[j],
            )->0.id@ by {
            assert forall|k: int|
                j < k < conflicts@.len() implies (spec_winner(#[trigger] conflicts@[k]) is Some
                ==> spec_winner(conflicts@[k])->0.path@ != spec_winner(conflicts@[j])->0.path@) by {
                assert(spec_winner_paths_differ(conflicts@[j], conflicts@[k]));
            }
            lemma_resolution_stages_winner(m0, conflicts@, j);
        }
    }
    Ok(())
}

/// Per-file added/removed line counts between two commits, oriented from
/// `old_commit` to `new_commit`: 3 context lines, untracked content
/// included, file modes ignored, patience matching. One entry per path.
pub fn diff_stats(repo: &git2::Repository, old_commit: &String, new_commit: &String) -> (r: Result<
    Vec<crate::types::FileChange>,
    GitError,
>)
    ensures
        r is Ok ==> forall|a: int, b: int|
            0 <= a < b < r->Ok_0@.len() ==> r->Ok_0@[a].path@ != r->Ok_0@[b].path@,
{
    let policy = DiffPolicy {
        context_lines: 3,
        include_untracked: true,
        show_untracked_content: true,
        include_unmodified: false,
        ignore_filemode: true,
        reverse: true,
        patience: true,
    };
    let events = store::diff_line_events(repo, new_commit, old_commit, &policy)?;
    Ok(aggregate_changes(&events))
}

/// The report of a completed pull: how many commits the exclusive range
/// (old, new] holds, the per-file change statistics between the two
/// commits, and both ids shortened to their first seven characters.
pub fn handle_pull_info(
    repo: &git2::Repository,
    old_commit_id: &String,
    new_commit_id: &String,
) -> (r: Result<PullUpdateInfo, GitError>)
    ensures
        r is Ok ==> r->Ok_0.old_commit_id@ == spec_first_n(old_commit_id@, 7)
            && r->Ok_0.new_commit_id@ == spec_first_n(new_commit_id@, 7),
        r is Ok ==> forall|a: int, b: int|
            0 <= a < b < r->Ok_0.file_changes@.len() ==> r->Ok_0.file_changes@[a].path@
                != r->Ok_0.file_changes@[b].path@,
{
    let mut walk = store::revwalk(repo)?;
    store::walk_push_range(&mut walk, old_commit_id, new_commit_id)?;
    let mut num_commits: usize = 0;
    loop
        invariant
            num_commits <= usize::MAX,
        decreases usize::MAX - num_commits,
    {
        if num_commits == usize::MAX {
            break;
        }
        match store::walk_next(&mut walk)? {
            Option::None => { break; },
            Option::Some(_oid) => {
                num_commits = num_commits + 1;
            },
        }
    }
    let file_changes = diff_stats(repo, old_commit_id, new_commit_id)?;
    Ok(PullUpdateInfo {
        new_commit_id: first_n(new_commit_id.as_str(), 7),
        old_commit_id: first_n(old_commit_id.as_str(), 7),
        num_commits,
        file_changes,
    })
}

/// Pulls the current branch from its configured remote: fetch, classify,
/// then either nothing (already up to date), a fast-forward, or a three-way
/// merge — committed when clean, left staged and uncommitted (no merge
/// commit) after conflict resolution. A successful pull, and only a
/// successful one, carries a report. After a conflicted merge no new commit
/// exists, so the report step fails with an object-lookup error while the
/// resolved, uncommitted state stays in place; local edits to a file both
/// sides touched are overwritten by the remote version.
pub fn git_pull(repo_path: String) -> (r: Result<GResult<Option<PullUpdateInfo>>, GitError>)
    ensures
        r is Ok ==> ((r->Ok_0.status == GResultEnum::Success) <==> (r->Ok_0.result is Some)),
        r is Ok ==> (r->Ok_0.status == GResultEnum::Success || r->Ok_0.status
            == GResultEnum::AlreadyUpToDate || r->Ok_0.status == GResultEnum::BranchNotExistsRemote
            || r->Ok_0.status == GResultEnum::NoRemoteConfigured),
{
    let repo = store::open_repository(&repo_path)?;
    let branch_info = get_current_branch_info(&repo)?;
    match upstream_gate(&branch_info.remote_name) {
        Option::Some(outcome) => {
            return Ok(GResult::new(outcome, Option::None));
        },
        Option::None => {},
    }
    let fetch_spec = concat3(
        "refs/heads/*:refs/remotes/",
        branch_info.remote_name.as_str(),
        "/*",
    );
    store::fetch_remote(&repo, &branch_info.remote_name, &fetch_spec)?;
    let refs = store::list_remote_refs(&repo, &branch_info.remote_name)?;
    let remote_head = find_branch_in_refs(&refs, &branch_info.branch_name);
    match pull_check(&remote_head, &branch_info.commit_id) {
        PullCheck::BranchMissing => {
            return Ok(GResult::new(GResultEnum::BranchNotExistsRemote, Option::None));
        },
        PullCheck::UpToDate => {
            return Ok(GResult::new(GResultEnum::AlreadyUpToDate, Option::None));
        },
        PullCheck::Proceed => {},
    }
    let fetch_commit = store::fetch_head_commit(&repo)?;
    let (up_to_date, fast_forward) = store::analyze_merge(&repo, &fetch_commit)?;
    let mut new_commit_id = String::from_str("0000000000000000000000000000000000000000");
    match classify_analysis(up_to_date, fast_forward) {
        MergeAnalysis::UpToDate => {
            return Ok(GResult::new(GResultEnum::AlreadyUpToDate, Option::None));
        },
        MergeAnalysis::FastForwardable => {
            let refname = concat2("refs/heads/", branch_info.branch_name.as_str());
            store::fast_forward(&repo, &refname, &fetch_commit)?;
            new_commit_id = fetch_commit.clone();
        },
        MergeAnalysis::NormalMerge => {
            let mut index = store::merge_into_index(
                &repo,
                &branch_info.commit_id,
                &fetch_commit,
            )?;
            if store::index_has_conflicts(&index) {
                let conflicts = store::index_conflicts(&index)?;
                resolve_conflicts(&mut index, &conflicts)?;
                let tree_hex = store::index_write_tree_to(&mut index, &repo)?;
                store::checkout_tree_force(&repo, &tree_hex)?;
            } else {
                let tree_hex = store::index_write_tree_to(&mut index, &repo)?;
                let message = String::from_str("Merge commit");
                new_commit_id = store::commit_on_head(
                    &repo,
                    &tree_hex,
                    &message,
                    Option::Some(&branch_info.commit_id),
                    Option::Some(&fetch_commit),
                )?;
            }
        },
    }
    let info = handle_pull_info(&repo, &branch_info.commit_id, &new_commit_id)?;
    Ok(GResult::new(GResultEnum::Success, Option::Some(info)))
}

/// Whether the current branch has commits its remote-tracking counterpart
/// lacks. A detached HEAD or a headless branch has nothing to push; a branch
/// with no tracking configuration, or whose tracking ref is gone, counts as
/// having unpushed work.
pub fn has_unpushed(repo_path: String) -> (r: Result<bool, GitError>)
    ensures
        r is Err ==> (r->Err_0.kind == GitErrorKind::StoreError || r->Err_0.kind
            == GitErrorKind::NoHead || r->Err_0.kind == GitErrorKind::ConfigMissing
            || r->Err_0.kind == GitErrorKind::ObjectNotFound),
{
    let repo = store::open_repository(&repo_path)?;
    let (branch_name, target, is_branch) = store::head_info(&repo)?;
    let remote_name: Option<String> = if is_branch && target.is_some() {
        let remote_key = concat3("branch.", branch_name.as_str(), ".remote");
        store::config_get(&repo, &remote_key)?
    } else {
        Option::None
    };
    let merge_ref: Option<String> = if remote_name.is_some() {
        let merge_key = concat3("branch.", branch_name.as_str(), ".merge");
        match store::config_get(&repo, &merge_key)? {
            Option::Some(v) => Option::Some(strip_prefix_or_self(&v, "refs/heads/")),
            Option::None => Option::None,
        }
    } else {
        Option::None
    };
    let tracking: Option<String> = match (&remote_name, &merge_ref) {
        (Option::Some(rn), Option::Some(m)) => {
            let tracking_ref = concat3("refs/remotes/", rn.as_str(), "/").concat(m.as_str());
            store::reference_target(&repo, &tracking_ref)?
        },
        _ => Option::None,
    };
    match unpushed_precheck(is_branch, &target, &remote_name, &merge_ref, &tracking) {
        Option::Some(verdict) => {
            return Ok(verdict);
        },
        Option::None => {},
    }
    let local_commit = target.unwrap();
    let remote_commit = tracking.unwrap();
    let mut walk = store::revwalk(&repo)?;
    store::walk_push_range(&mut walk, &remote_commit, &local_commit)?;
    let first = store::walk_next(&mut walk)?;
    Ok(range_nonempty(&first))
}

/// See [`has_unpushed`].
pub fn has_unpushed_commits(repo_path: String) -> (r: Result<bool, GitError>)
{
    has_unpushed(repo_path)
}

/// Pushes the current branch to its configured remote. Reports (not as an
/// error) when no remote is configured, or when the unpushed-commit check
/// refuses the push.
pub fn git_push(repo_path: String) -> (r: Result<GResultEnum, GitError>)
    ensures
        r is Ok ==> (r->Ok_0 == GResultEnum::Success || r->Ok_0 == GResultEnum::UnPushedChanges
            || r->Ok_0 == GResultEnum::NoRemoteConfigured),
{
    let repo = store::open_repository(&repo_path)?;
    let branch_info = get_current_branch_info(&repo)?;
    let remote_empty = branch_info.remote_name.as_str().is_empty();
    let unpushed = if remote_empty {
        false
    } else {
        has_unpushed(repo_path)?
    };
    match push_gate(remote_empty, unpushed) {
        Option::Some(outcome) => { return Ok(outcome); },
        Option::None => {},
    }
    let refspec = concat2("refs/heads/", branch_info.branch_name.as_str());
    store::push_refspec(&repo, &branch_info.remote_name, &refspec)?;
    Ok(GResultEnum::Success)
}

/// Points the remote's URL at `url`, retargets every local branch's
/// tracking configuration to the remote, writes its fetch refspec, and
/// fetches it once.
pub fn git_configure_remote(repo_path: String, remote_name: String, url: String) -> (r: Result<
    (),
    GitError,
>)
    ensures
        r is Err ==> (r->Err_0.kind == GitErrorKind::StoreError || r->Err_0.kind
            == GitErrorKind::RemoteNotFound || r->Err_0.kind == GitErrorKind::NetworkError
            || r->Err_0.kind == GitErrorKind::AuthFailed),
{
    let repo = store::open_repository(&repo_path)?;
    let url_key = concat3("remote.", remote_name.as_str(), ".url");
    store::config_set(&repo, &url_key, &url)?;
    let locals = store::branch_names(&repo, false)?;
    let mut i: usize = 0;
    while i < locals.len()
        invariant
            i <= locals@.len(),
        decreases locals@.len() - i,
    {
        let b = &locals[i];
        let remote_key = concat3("branch.", b.as_str(), ".remote");
        store::config_set(&repo, &remote_key, &remote_name)?;
        let merge_key = concat3("branch.", b.as_str(), ".merge");
        let merge_val = concat2("refs/heads/", b.as_str());
        store::config_set(&repo, &merge_key, &merge_val)?;
        i = i + 1;
    }
    let fetch_key = concat3("remote.", remote_name.as_str(), ".fetch");
    let fetch_val = concat3("+refs/heads/*:refs/remotes/", remote_name.as_str(), "/*");
    store::config_set(&repo, &fetch_key, &fetch_val)?;
    let fetch_spec = concat3("refs/heads/*:refs/remotes/", remote_name.as_str(), "/*");
    store::fetch_remote(&repo, &remote_name, &fetch_spec)?;
    Ok(())
}

/// Resolves a checkout target through the contracted [`checkout_choice`],
/// gathering evidence lazily and in precedence order: an existing local
/// branch (switch and force-checkout, untracked files removed), a
/// remote-tracking branch of the current remote (create a local branch
/// there, switch, and write its tracking configuration), then any revision
/// that resolves to a commit (detach HEAD with a safe checkout). Fails with
/// a target-not-found error naming the target when none matches; a success
/// message names the target and which rule matched.
pub fn git_checkout(repo_path: String, target: String) -> (r: Result<String, GitError>)
    ensures
        r is Ok ==> (r->Ok_0@ == "Checked out to local branch "@ + target@ || r->Ok_0@
            == "Checked out to remote branch "@ + target@ || r->Ok_0@ == "Checked out to commit '"@
            + target@ + "'"@),
{
    let repo = store::open_repository(&repo_path)?;
    let local_exists = store::local_branch_exists(&repo, &target)?;
    let mut remote_name: Option<String> = Option::None;
    let remote_target: Option<String> = if local_exists {
        Option::None
    } else {
        let info = get_current_branch_info(&repo)?;
        let remote_ref = concat3("refs/remotes/", info.remote_name.as_str(), "/").concat(
            target.as_str(),
        );
        let t = store::reference_target(&repo, &remote_ref)?;
        remote_name = Option::Some(info.remote_name);
        t
    };
    let rev_commit: Option<String> = if local_exists || remote_target.is_some() {
        Option::None
    } else {
        store::revparse_commit(&repo, &target)?
    };
    match checkout_choice(local_exists, &remote_target, &rev_commit) {
        CheckoutChoice::LocalBranch => {
            let refname = concat2("refs/heads/", target.as_str());
            store::set_head(&repo, &refname)?;
            store::checkout_head_with(&repo, CheckoutMode::ForceRemoveUntracked)?;
            Ok(concat2("Checked out to local branch ", target.as_str()))
        },
        CheckoutChoice::RemoteBranch(oid) => {
            let remote = remote_name.unwrap();
            store::create_branch(&repo, &target, &oid, true)?;
            let refname = concat2("refs/heads/", target.as_str());
            store::set_head(&repo, &refname)?;
            store::checkout_head_with(&repo, CheckoutMode::ForceRemoveUntracked)?;
            let remote_key = concat3("branch.", target.as_str(), ".remote");
            store::config_set(&repo, &remote_key, &remote)?;
            let merge_key = concat3("branch.", target.as_str(), ".merge");
            store::config_set(&repo, &merge_key, &refname)?;
            Ok(concat2("Checked out to remote branch ", target.as_str()))
        },
        CheckoutChoice::DetachedCommit(oid) => {
            store::set_head_detached(&repo, &oid)?;
            store::checkout_head_with(&repo, CheckoutMode::Safe)?;
            Ok(concat3("Checked out to commit '", target.as_str(), "'"))
        },
        CheckoutChoice::TargetMissing => Err(GitError::new(
            GitErrorKind::TargetNotFound,
            concat3("Target '", target.as_str(), "' not found (branch, remote branch, or commit ID)"),
        )),
    }
}

/// `t` is the RFC 3339 UTC rendering of some timestamp.
pub open spec fn spec_is_rfc3339(t: Seq<char>) -> bool {
    exists|s: int| t == store::rfc3339_utc_of(s)
}

/// Walks the commit graph from HEAD in reverse-chronological graph order and
/// returns at most `n` entries; shorter histories return fewer without
/// error. Fails with the no-head kind when HEAD is unborn. Each entry's
/// full id is a canonical forty-digit object id, its short id a prefix of
/// it, and each time field is the RFC 3339 UTC rendering of some timestamp.
pub fn git_commit_history(repo_path: String, n: usize) -> (r: Result<Vec<CommitInfo>, GitError>)
    ensures
        r is Ok ==> r->Ok_0@.len() <= n,
        r is Ok ==> forall|i: int|
            0 <= i < r->Ok_0@.len() ==> crate::strutil::spec_is_oid_hex(
                (#[trigger] r->Ok_0@[i]).full_id@,
            ),
        r is Ok ==> forall|i: int|
            0 <= i < r->Ok_0@.len() ==> spec_has_prefix(
                (#[trigger] r->Ok_0@[i]).full_id@,
                r->Ok_0@[i].short_id@,
            ),
        r is Ok ==> forall|i: int|
            0 <= i < r->Ok_0@.len() ==> spec_is_rfc3339((#[trigger] r->Ok_0@[i]).time@),
{
    let repo = store::open_repository(&repo_path)?;
    let (_branch, target, _is_branch) = store::head_info(&repo)?;
    let head_commit = require_commit(target, GitErrorKind::NoHead)?;
    let mut walk = store::revwalk(&repo)?;
    store::walk_push(&mut walk, &head_commit)?;
    let mut commits: Vec<CommitInfo> = Vec::new();
    let mut i: usize = 0;
    while i < n
        invariant
            i <= n,
            commits@.len() == i,
            forall|j: int|
                0 <= j < commits@.len() ==> crate::strutil::spec_is_oid_hex(
                    (#[trigger] commits@[j]).full_id@,
                ),
            forall|j: int|
                0 <= j < commits@.len() ==> spec_has_prefix(
                    (#[trigger] commits@[j]).full_id@,
                    commits@[j].short_id@,
                ),
            forall|j: int|
                0 <= j < commits@.len() ==> spec_is_rfc3339((#[trigger] commits@[j]).time@),
        decreases n - i,
    {
        match store::walk_next(&mut walk)? {
            Option::None => { return Ok(commits); },
            Option::Some(oid) => {
                let (short_id, summary, secs) = store::commit_summary(&repo, &oid)?;
                let time = match store::time_rfc3339(secs) {
                    Option::Some(t) => t,
                    Option::None => {
                        return Err(GitError::new(
                            GitErrorKind::StoreError,
                            String::from_str("commit time out of range"),
                        ));
                    },
                };
                proof {
                    assert(time@ == store::rfc3339_utc_of(secs as int));
                    assert(spec_is_rfc3339(time@));
                }
                commits.push(CommitInfo { full_id: oid, short_id, summary, time });
            },
        }
        i = i + 1;
    }
    Ok(commits)
}

/// Creates a branch of the given name at the current HEAD commit, switches
/// to it with a forced checkout, and writes its tracking configuration: the
/// new branch inherits the remote the previous branch was tied to, so the
/// tracking association is read before anything moves.
pub fn git_new_branch(repo_path: String, branch_name: String) -> (r: Result<(), GitError>)
    ensures
        r is Err ==> (r->Err_0.kind == GitErrorKind::StoreError || r->Err_0.kind
            == GitErrorKind::ConfigMissing || r->Err_0.kind == GitErrorKind::ObjectNotFound
            || r->Err_0.kind == GitErrorKind::BlobWriteError),
{
    let repo = store::open_repository(&repo_path)?;
    let info = get_current_branch_info(&repo)?;
    store::create_branch(&repo, &branch_name, &info.commit_id, false)?;
    let refname = concat2("refs/heads/", branch_name.as_str());
    store::set_head(&repo, &refname)?;
    store::checkout_head_with(&repo, CheckoutMode::ForceRemoveUntracked)?;
    let remote_key = concat3("branch.", branch_name.as_str(), ".remote");
    store::config_set(&repo, &remote_key, &info.remote_name)?;
    let merge_key = concat3("branch.", branch_name.as_str(), ".merge");
    store::config_set(&repo, &merge_key, &refname)?;
    store::set_head(&repo, &refname)?;
    store::checkout_head_with(&repo, CheckoutMode::Plain)?;
    Ok(())
}

/// The remote branch names that the listing keeps: all of them, in order,
/// except the remote's symbolic HEAD pointer.
pub open spec fn spec_kept_remotes(names: Seq<String>, skip_name: Seq<char>) -> Seq<Seq<char>>
    decreases names.len(),
{
    if names.len() == 0 {
        Seq::<Seq<char>>::empty()
    } else {
        let prev = spec_kept_remotes(names.drop_last(), skip_name);
        if names.last()@ == skip_name {
            prev
        } else {
            prev.push(names.last()@)
        }
    }
}

/// One listing entry per local branch, in order, tagged `"local"` and
/// current exactly when the name is the tracked current branch's.
pub fn local_branch_entries(locals: &Vec<String>, current: &String) -> (r: Vec<BranchInfo>)
    ensures
        r@.len() == locals@.len(),
        forall|i: int|
            0 <= i < r@.len() ==> (#[trigger] r@[i]).branch_name@ == locals@[i]@
                && r@[i].branch_type@ == "local"@ && r@[i].is_current == (locals@[i]@ == current@),
{
    let mut out: Vec<BranchInfo> = Vec::new();
    let mut i: usize = 0;
    while i < locals.len()
        invariant
            i <= locals@.len(),
            out@.len() == i,
            forall|j: int|
                0 <= j < i ==> (#[trigger] out@[j]).branch_name@ == locals@[j]@
                    && out@[j].branch_type@ == "local"@ && out@[j].is_current == (locals@[j]@
                    == current@),
        decreases locals@.len() - i,
    {
        let name = locals[i].clone();
        let is_current = locals[i] == *current;
        out.push(BranchInfo { branch_name: name, branch_type: String::from_str("local"), is_current });
        i = i + 1;
    }
    out
}

/// One listing entry per remote branch, in order, tagged `"remote"` and
/// never current, with the remote's symbolic HEAD pointer left out.
pub fn remote_branch_entries(remotes: &Vec<String>, head_name: &String) -> (r: Vec<BranchInfo>)
    ensures
        r@.len() == spec_kept_remotes(remotes@, head_name@).len(),
        forall|j: int|
            0 <= j < r@.len() ==> (#[trigger] r@[j]).branch_name@ == spec_kept_remotes(
                remotes@,
                head_name@,
            )[j] && r@[j].branch_type@ == "remote"@ && !r@[j].is_current,
{
    let mut out: Vec<BranchInfo> = Vec::new();
    let mut i: usize = 0;
    while i < remotes.len()
        invariant
            i <= remotes@.len(),
            out@.len() == spec_kept_remotes(remotes@.take(i as int), head_name@).len(),
            forall|j: int|
                0 <= j < out@.len() ==> (#[trigger] out@[j]).branch_name@ == spec_kept_remotes(
                    remotes@.take(i as int),
                    head_name@,
                )[j] && out@[j].branch_type@ == "remote"@ && !out@[j].is_current,
        decreases remotes@.len() - i,
    {
        proof {
            assert(remotes@.take(i + 1).drop_last() =~= remotes@.take(i as int));
            assert(remotes@.take(i + 1).last() == remotes@[i as int]);
        }
        if !(remotes[i] == *head_name) {
            out.push(BranchInfo {
                branch_name: remotes[i].clone(),
                branch_type: String::from_str("remote"),
                is_current: false,
            });
        }
        i = i + 1;
    }
    proof {
        assert(remotes@.take(remotes@.len() as int) =~= remotes@);
    }
    out
}

/// Lists every local branch (tagged against the current branch) followed by
/// every remote branch except the remote's symbolic HEAD pointer. A
/// commit-less repository lists nothing, and that is not an error. Every
/// entry is tagged `"local"` or `"remote"`, every local entry stands before
/// every remote one, and no remote entry is current.
pub fn git_branches(repo_path: String) -> (r: Result<Vec<BranchInfo>, GitError>)
    ensures
        r is Ok ==> forall|i: int|
            0 <= i < r->Ok_0@.len() ==> ((#[trigger] r->Ok_0@[i]).branch_type@ == "local"@
                || r->Ok_0@[i].branch_type@ == "remote"@),
        r is Ok ==> forall|i: int, j: int|
            0 <= i < j < r->Ok_0@.len() && (#[trigger] r->Ok_0@[i]).branch_type@ == "remote"@
                ==> (#[trigger] r->Ok_0@[j]).branch_type@ == "remote"@,
        r is Ok ==> forall|i: int|
            0 <= i < r->Ok_0@.len() && (#[trigger] r->Ok_0@[i]).branch_type@ == "remote"@
                ==> !r->Ok_0@[i].is_current,
{
    let repo = store::open_repository(&repo_path)?;
    if store::repo_is_empty(&repo) {
        return Ok(Vec::new());
    }
    let info = get_current_branch_info(&repo)?;
    let locals = store::branch_names(&repo, false)?;
    let mut out = local_branch_entries(&locals, &info.branch_name);
    let ghost locv = out@;
    let remotes = store::branch_names(&repo, true)?;
    let head_name = concat2(info.remote_name.as_str(), "/HEAD");
    let mut rems = remote_branch_entries(&remotes, &head_name);
    let ghost remv = rems@;
    out.append(&mut rems);
    proof {
        reveal_strlit("local");
        reveal_strlit("remote");
        assert("local"@.len() == 5);
        assert("remote"@.len() == 6);
        assert(out@ == locv + remv);
        assert(forall|i: int|
            0 <= i < locv.len() ==> out@[i] == locv[i] && (#[trigger] out@[i]).branch_type@
                == "local"@);
        assert(forall|i: int|
            locv.len() <= i < out@.len() ==> out@[i] == remv[i - locv.len()] && (
            #[trigger] out@[i]).branch_type@ == "remote"@ && !out@[i].is_current);
    }
    Ok(out)
}

/// The paths a commit's tree changes against its first parent; a root
/// commit changes nothing.
pub fn get_changed_files_in_commit(repo_path: String, commit_id: String) -> (r: Result<
    Vec<String>,
    GitError,
>)
{
    let repo = store::open_repository(&repo_path)?;
    let parent = store::commit_parent0(&repo, &commit_id)?;
    match parent {
        Option::Some(p) => {
            let parent_tree = store::commit_tree_hex(&repo, &p)?;
            let tree = store::commit_tree_hex(&repo, &commit_id)?;
            store::tree_delta_paths(&repo, Option::Some(&parent_tree), &tree)
        },
        Option::None => Ok(Vec::new()),
    }
}

/// The textual patch of a commit against its first parent (against the
/// empty tree for a root commit). The `file_path` argument names the file
/// of interest at the interface, but the returned patch covers the whole
/// commit: the print emits every delta.
pub fn get_file_diff_in_commit(repo_path: String, commit_id: String, file_path: String) -> (r:
    Result<String, GitError>)
    ensures
        r is Err ==> (r->Err_0.kind == GitErrorKind::StoreError || r->Err_0.kind
            == GitErrorKind::ObjectNotFound || r->Err_0.kind == GitErrorKind::DiffReadError),
{
    let repo = store::open_repository(&repo_path)?;
    let _ = file_path;
    let parent = store::commit_parent0(&repo, &commit_id)?;
    let tree = store::commit_tree_hex(&repo, &commit_id)?;
    match parent {
        Option::Some(p) => {
            let parent_tree = store::commit_tree_hex(&repo, &p)?;
            store::tree_patch_text(&repo, Option::Some(&parent_tree), &tree)
        },
        Option::None => store::tree_patch_text(&repo, Option::None, &tree),
    }
}

} // verus!
