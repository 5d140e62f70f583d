//! The trusted interface to the object store, transport and working tree,
//! all supplied by the `git2` crate (and one clock-to-text conversion from
//! `chrono`). Every item here is believed, not verified: each wrapper's body
//! only makes the named outside calls and converts their arguments and
//! results to and from plain values. Commit and tree ids cross this boundary
//! as hexadecimal strings.

use crate::policy::{choose_credential, spec_conflict_ids_hex, spec_winner_paths_differ};
use crate::strutil::{spec_has_prefix, spec_is_oid_hex};
use crate::types::{
    BlobRef, CheckoutMode, ConflictEntry, CredentialChoice, DiffLineEvent, DiffPolicy, GitError,
    GitErrorKind,
};
use vstd::prelude::*;

verus! {

/// The stage-0 (resolved) entries of an index: each staged path — its bytes,
/// the form the index itself stores — mapped to the hexadecimal id of the
/// blob it is staged at.
pub uninterp spec fn index_stage0(i: git2::Index) -> Map<Seq<u8>, Seq<char>>;

/// The RFC 3339 rendering of a count of seconds since the Unix epoch, in
/// UTC; a function of the seconds alone.
pub uninterp spec fn rfc3339_utc_of(secs: int) -> Seq<char>;

#[verifier::external_type_specification]
#[verifier::external_body]
pub struct ExRepository(git2::Repository);

#[verifier::external_type_specification]
#[verifier::external_body]
pub struct ExIndex(git2::Index);

#[verifier::external_type_specification]
#[verifier::external_body]
pub struct ExIndexEntry(git2::IndexEntry);

#[verifier::external_type_specification]
#[verifier::external_body]
pub struct ExGitError(git2::Error);

#[verifier::external_type_specification]
#[verifier::external_body]
pub struct ExCred(git2::Cred);

#[verifier::external_type_specification]
#[verifier::external_body]
pub struct ExCredentialType(git2::CredentialType);

#[verifier::external_type_specification]
#[verifier::external_body]
pub struct ExOid(git2::Oid);

#[verifier::external_type_specification]
#[verifier::external_body]
pub struct ExRevwalk<'repo>(git2::Revwalk<'repo>);

#[verifier::external_type_specification]
#[verifier::external_body]
pub struct ExDiffDelta<'a>(git2::DiffDelta<'a>);

#[verifier::external_type_specification]
#[verifier::external_body]
pub struct ExTree<'a>(git2::Tree<'a>);

#[verifier::external_type_specification]
#[verifier::external_body]
pub struct ExCommit<'a>(git2::Commit<'a>);

#[verifier::external_type_specification]
#[verifier::external_body]
pub struct ExDiffOptions(git2::DiffOptions);

/// Relies on git2::Error::message: wraps a store failure as the given kind,
/// preserving the underlying message.
#[verifier::external_body]
fn gerr(kind: GitErrorKind, e: git2::Error) -> GitError {
    GitError { kind, message: e.message().to_string() }
}

/// Relies on git2::Error::{code, class, message}: classifies a transport
/// failure as an authentication failure when the credential negotiation gave
/// up (callback class or auth code), else as a network failure.
#[verifier::external_body]
fn net_err(e: git2::Error) -> GitError {
    let kind = if e.code() == git2::ErrorCode::Auth || e.class() == git2::ErrorClass::Callback {
        GitErrorKind::AuthFailed
    } else {
        GitErrorKind::NetworkError
    };
    GitError { kind, message: e.message().to_string() }
}

/// Relies on git2::Error::message: an object-lookup failure.
#[verifier::external_body]
fn oerr(e: git2::Error) -> GitError {
    gerr(GitErrorKind::ObjectNotFound, e)
}

/// Relies on git2::Error::message: a store-level failure.
#[verifier::external_body]
fn serr(e: git2::Error) -> GitError {
    gerr(GitErrorKind::StoreError, e)
}

/// Relies on git2::Error::message: a diff-read failure.
#[verifier::external_body]
fn derr(e: git2::Error) -> GitError {
    gerr(GitErrorKind::DiffReadError, e)
}

/// Relies on git2::CredentialType::contains and git2::Cred::
/// {ssh_key_from_agent, userpass_plaintext}: hands the transport the
/// credential that the verified priority policy picks from the offered
/// types. Idempotent and side-effect-free, as the transport may call it once
/// per negotiation round.
#[verifier::external_body]
fn negotiate_credential(
    username: Option<&str>,
    allowed: git2::CredentialType,
) -> Result<git2::Cred, git2::Error> {
    let choice = choose_credential(
        allowed.contains(git2::CredentialType::SSH_KEY),
        allowed.contains(git2::CredentialType::USER_PASS_PLAINTEXT),
    );
    match choice {
        CredentialChoice::SshAgent => git2::Cred::ssh_key_from_agent(username.unwrap_or("git")),
        CredentialChoice::UserPass => git2::Cred::userpass_plaintext("your_username", "your_password"),
        CredentialChoice::NoneAvailable => Err(git2::Error::from_str(
            "No valid authentication method available",
        )),
    }
}

/// Relies on git2::Repository::open.
#[verifier::external_body]
pub fn open_repository(path: &String) -> (r: Result<git2::Repository, GitError>)
    ensures
        r is Err ==> r->Err_0.kind == GitErrorKind::StoreError,
{
    git2::Repository::open(path.as_str()).map_err(serr)
}

/// Relies on git2::Repository::init. Every failure carries the store-error
/// kind.
#[verifier::external_body]
pub fn init_repository(path: &String) -> (r: Result<(), GitError>)
    ensures
        r is Err ==> r->Err_0.kind == GitErrorKind::StoreError,
{
    match git2::Repository::init(path.as_str()) {
        Ok(_) => Ok(()),
        Err(e) => Err(gerr(GitErrorKind::StoreError, e)),
    }
}

/// Relies on std::path::Path::exists.
#[verifier::external_body]
pub fn path_exists(path: &String) -> bool {
    std::path::Path::new(path.as_str()).exists()
}

/// Relies on git2::Repository::head and git2::Reference::{shorthand,
/// target, is_branch}: the shorthand name HEAD points at (empty when it has
/// none), the commit id it resolves to, and whether it is a local branch.
/// Every failure carries the no-head kind.
#[verifier::external_body]
pub fn head_info(repo: &git2::Repository) -> (r: Result<(String, Option<String>, bool), GitError>)
    ensures
        r is Err ==> r->Err_0.kind == GitErrorKind::NoHead,
{
    let h = repo.head().map_err(|e| gerr(GitErrorKind::NoHead, e))?;
    Ok((
        h.shorthand().unwrap_or("").to_string(),
        h.target().map(|o| o.to_string()),
        h.is_branch(),
    ))
}

/// Relies on git2::Repository::config and git2::Config::get_string: the
/// value of a config key, or nothing when the key is not set. Every failure
/// carries the missing-configuration kind.
#[verifier::external_body]
pub fn config_get(repo: &git2::Repository, key: &String) -> (r: Result<Option<String>, GitError>)
    ensures
        r is Err ==> r->Err_0.kind == GitErrorKind::ConfigMissing,
{
    match repo.config().and_then(|c| c.get_string(key.as_str())) {
        Ok(v) => Ok(Some(v)),
        Err(e) if e.code() == git2::ErrorCode::NotFound => Ok(None),
        Err(e) => Err(gerr(GitErrorKind::ConfigMissing, e)),
    }
}

/// Relies on git2::Repository::config and git2::Config::set_str.
#[verifier::external_body]
pub fn config_set(repo: &git2::Repository, key: &String, value: &String) -> (r: Result<
    (),
    GitError,
>)
    ensures
        r is Err ==> r->Err_0.kind == GitErrorKind::StoreError,
{
    repo.config()
        .and_then(|mut c| c.set_str(key.as_str(), value.as_str()))
        .map_err(serr)
}

/// Relies on git2::Repository::find_remote and git2::Remote::fetch, with
/// pruning on, all tags downloaded, and the credential negotiation above:
/// fetches the caller-built refspec (the callers pass
/// `refs/heads/*:refs/remotes/<remote>/*`, assembled under the exact
/// concatenation contracts). Mutates remote-tracking refs only, never local
/// branches or the working tree.
#[verifier::external_body]
pub fn fetch_remote(
    repo: &git2::Repository,
    remote_name: &String,
    refspec: &String,
) -> (r: Result<(), GitError>)
    ensures
        r is Err ==> (r->Err_0.kind == GitErrorKind::RemoteNotFound || r->Err_0.kind
            == GitErrorKind::NetworkError || r->Err_0.kind == GitErrorKind::AuthFailed),
{
    let mut remote = repo
        .find_remote(remote_name.as_str())
        .map_err(|e| gerr(GitErrorKind::RemoteNotFound, e))?;
    let mut cb = git2::RemoteCallbacks::new();
    cb.credentials(|_url, user, allowed| negotiate_credential(user, allowed));
    let mut fo = git2::FetchOptions::new();
    fo.remote_callbacks(cb);
    fo.prune(git2::FetchPrune::On);
    fo.download_tags(git2::AutotagOption::All);
    remote.fetch(&[refspec.as_str()], Some(&mut fo), None).map_err(net_err)
}

/// Relies on git2::Repository::find_remote, git2::Remote::connect_auth and
/// git2::RemoteConnection::list: the advertised refs of the remote, as
/// (full ref name, hexadecimal id) pairs in the order the remote lists them.
/// Caveat: git2's `RemoteHead::name` unwraps a UTF-8 conversion of the
/// remote-supplied name bytes and offers no byte-level reading, so a remote
/// advertising a non-UTF-8 ref name aborts the process here — the one place
/// the library's no-panic promise does not hold.
#[verifier::external_body]
pub fn list_remote_refs(
    repo: &git2::Repository,
    remote_name: &String,
) -> Result<Vec<(String, String)>, GitError> {
    let mut remote = repo
        .find_remote(remote_name.as_str())
        .map_err(|e| gerr(GitErrorKind::RemoteNotFound, e))?;
    let mut cb = git2::RemoteCallbacks::new();
    cb.credentials(|_url, user, allowed| negotiate_credential(user, allowed));
    let conn = remote
        .connect_auth(git2::Direction::Fetch, Some(cb), None)
        .map_err(net_err)?;
    let mut v: Vec<(String, String)> = Vec::new();
    for r in conn.list().map_err(net_err)?.iter() {
        v.push((r.name().to_string(), r.oid().to_string()));
    }
    Ok(v)
}

/// Relies on git2::Repository::{find_remote, push} with the credential
/// negotiation above: pushes the given refspec to the remote.
#[verifier::external_body]
pub fn push_refspec(
    repo: &git2::Repository,
    remote_name: &String,
    refspec: &String,
) -> (r: Result<(), GitError>)
    ensures
        r is Err ==> (r->Err_0.kind == GitErrorKind::RemoteNotFound || r->Err_0.kind
            == GitErrorKind::NetworkError || r->Err_0.kind == GitErrorKind::AuthFailed),
{
    let mut remote = repo
        .find_remote(remote_name.as_str())
        .map_err(|e| gerr(GitErrorKind::RemoteNotFound, e))?;
    let mut cb = git2::RemoteCallbacks::new();
    cb.credentials(|_url, user, allowed| negotiate_credential(user, allowed));
    let mut po = git2::PushOptions::new();
    po.remote_callbacks(cb);
    remote.push(&[refspec.as_str()], Some(&mut po)).map_err(net_err)
}

/// Relies on git2::build::RepoBuilder::clone with the credential
/// negotiation above and all tags downloaded.
#[verifier::external_body]
pub fn clone_repository(url: &String, destination: &String) -> Result<(), GitError> {
    let mut cb = git2::RemoteCallbacks::new();
    cb.credentials(|_url, user, allowed| negotiate_credential(user, allowed));
    let mut fo = git2::FetchOptions::new();
    fo.remote_callbacks(cb);
    fo.download_tags(git2::AutotagOption::All);
    let mut builder = git2::build::RepoBuilder::new();
    builder.fetch_options(fo);
    match builder.clone(url.as_str(), std::path::Path::new(destination.as_str())) {
        Ok(_) => Ok(()),
        Err(e) => Err(net_err(e)),
    }
}

/// Relies on git2::Repository::{find_reference, reference_to_annotated_commit}
/// and git2::AnnotatedCommit::id: the commit id FETCH_HEAD resolves to.
#[verifier::external_body]
pub fn fetch_head_commit(repo: &git2::Repository) -> Result<String, GitError> {
    let r = repo
        .find_reference("FETCH_HEAD")
        .map_err(oerr)?;
    let ac = repo
        .reference_to_annotated_commit(&r)
        .map_err(oerr)?;
    Ok(ac.id().to_string())
}

/// Relies on git2::Repository::{find_annotated_commit, merge_analysis} and
/// git2::MergeAnalysis::{is_up_to_date, is_fast_forward}: how the given
/// fetched commit relates to local HEAD, as the pair of analysis flags.
#[verifier::external_body]
pub fn analyze_merge(repo: &git2::Repository, oid_hex: &String) -> Result<(bool, bool), GitError> {
    let oid = git2::Oid::from_str(oid_hex.as_str()).map_err(oerr)?;
    let ac = repo.find_annotated_commit(oid).map_err(oerr)?;
    let (analysis, _) = repo.merge_analysis(&[&ac]).map_err(serr)?;
    Ok((analysis.is_up_to_date(), analysis.is_fast_forward()))
}

/// Relies on git2::Repository::{find_reference, set_head, checkout_head} and
/// git2::Reference::set_target: moves the given branch ref to the commit,
/// points HEAD at it and force-checks-out the working tree to match. Only
/// run once the analysis has confirmed a fast-forward.
#[verifier::external_body]
pub fn fast_forward(
    repo: &git2::Repository,
    refname: &String,
    oid_hex: &String,
) -> Result<(), GitError> {
    let oid = git2::Oid::from_str(oid_hex.as_str()).map_err(oerr)?;
    let mut r = repo
        .find_reference(refname.as_str())
        .map_err(oerr)?;
    r.set_target(oid, "Fast-forward").map_err(serr)?;
    repo.set_head(refname.as_str()).map_err(serr)?;
    repo.checkout_head(Some(git2::build::CheckoutBuilder::default().force()))
        .map_err(|e| gerr(GitErrorKind::BlobWriteError, e))
}

/// Relies on git2::Repository::{find_commit, merge_commits}: the in-memory
/// index of the three-way merge of the two commits, conflicts included.
#[verifier::external_body]
pub fn merge_into_index(
    repo: &git2::Repository,
    local_hex: &String,
    remote_hex: &String,
) -> Result<git2::Index, GitError> {
    let lo = git2::Oid::from_str(local_hex.as_str()).map_err(oerr)?;
    let ro = git2::Oid::from_str(remote_hex.as_str()).map_err(oerr)?;
    let lc = repo.find_commit(lo).map_err(oerr)?;
    let rc = repo.find_commit(ro).map_err(oerr)?;
    repo.merge_commits(&lc, &rc, None).map_err(serr)
}

/// Relies on git2::Index::has_conflicts.
#[verifier::external_body]
pub fn index_has_conflicts(idx: &git2::Index) -> bool {
    idx.has_conflicts()
}

/// Relies on git2::IndexEntry: reads one conflict side as plain values —
/// the path bytes as the index stores them, the blob id in hexadecimal, and
/// the file mode.
#[verifier::external_body]
fn entry_blob(e: &git2::IndexEntry) -> BlobRef {
    BlobRef { path: e.path.clone(), id: e.id.to_string(), mode: e.mode }
}

/// Relies on git2::Index::conflicts and git2::IndexConflict: the conflicted
/// paths of the index, each as its three optional sides. At least one side
/// of each entry is present by construction of the merge. The iterator
/// yields one group per path — the index is sorted by path, all sides of a
/// group carry the group's byte path, and the cursor moves past the whole
/// group — so the entries resolve to pairwise-distinct byte paths; and every
/// id is an `Oid` rendering, forty lowercase hexadecimal digits.
#[verifier::external_body]
pub fn index_conflicts(idx: &git2::Index) -> (r: Result<Vec<ConflictEntry>, GitError>)
    ensures
        r is Ok ==> forall|i: int|
            0 <= i < r->Ok_0@.len() ==> spec_conflict_ids_hex(#[trigger] r->Ok_0@[i]),
        r is Ok ==> forall|a: int, b: int|
            0 <= a < b < r->Ok_0@.len() ==> spec_winner_paths_differ(r->Ok_0@[a], r->Ok_0@[b]),
{
    let mut v: Vec<ConflictEntry> = Vec::new();
    for c in idx.conflicts().map_err(serr)? {
        let c = c.map_err(serr)?;
        v.push(ConflictEntry {
            ours: c.our.as_ref().map(entry_blob),
            theirs: c.their.as_ref().map(entry_blob),
            ancestor: c.ancestor.as_ref().map(entry_blob),
        });
    }
    Ok(v)
}

/// Relies on git2::Index::{remove_path, add}: removes every stage of the
/// byte path (conflicts included) and stages the given blob there at stage
/// 0, so the stage-0 entries afterwards are the old ones with this path now
/// mapped to this id. The id must already be canonical (forty lowercase
/// hexadecimal digits): `Oid::from_str` zero-pads shorter strings and
/// accepts uppercase, so only a canonical id round-trips to exactly the
/// given text. A path that is not valid text is refused before anything
/// changes, as `remove_path` takes a text path.
#[verifier::external_body]
pub fn index_stage(
    idx: &mut git2::Index,
    path: &Vec<u8>,
    id_hex: &String,
    mode: u32,
) -> (r: Result<(), GitError>)
    requires
        spec_is_oid_hex(id_hex@),
    ensures
        r is Ok ==> index_stage0(*final(idx)) == index_stage0(*old(idx)).insert(path@, id_hex@),
{
    let oid = git2::Oid::from_str(id_hex.as_str()).map_err(oerr)?;
    let p = std::str::from_utf8(path)
        .map_err(|e| GitError { kind: GitErrorKind::StoreError, message: e.to_string() })?;
    idx.remove_path(std::path::Path::new(p)).map_err(serr)?;
    let entry = git2::IndexEntry {
        ctime: git2::IndexTime::new(0, 0), mtime: git2::IndexTime::new(0, 0),
        dev: 0, ino: 0, mode, uid: 0, gid: 0, file_size: 0, id: oid,
        flags: 0, flags_extended: 0, path: path.clone(),
    };
    idx.add(&entry).map_err(serr)
}

/// Relies on git2::Index::write_tree_to: writes the index as a tree into
/// the repository's object store and returns the tree's id. Fails while the
/// index still has conflicts.
#[verifier::external_body]
pub fn index_write_tree_to(idx: &mut git2::Index, repo: &git2::Repository) -> Result<String, GitError> {
    idx.write_tree_to(repo)
        .map(|o| o.to_string())
        .map_err(serr)
}

/// Relies on git2::Repository::{find_tree, checkout_tree}: force-checks-out
/// the given tree, making the working tree and the repository's index match
/// it.
#[verifier::external_body]
pub fn checkout_tree_force(repo: &git2::Repository, tree_hex: &String) -> Result<(), GitError> {
    let oid = git2::Oid::from_str(tree_hex.as_str()).map_err(oerr)?;
    let tree = repo.find_tree(oid).map_err(oerr)?;
    repo.checkout_tree(tree.as_object(), Some(git2::build::CheckoutBuilder::default().force()))
        .map_err(|e| gerr(GitErrorKind::BlobWriteError, e))
}

/// Relies on git2::Repository::{signature, find_tree, find_commit, commit}:
/// creates a commit on HEAD with the given tree, message and parents,
/// authored and committed by the repository's configured signature. Fails
/// with a missing-signature error when the configuration has no name or
/// email.
#[verifier::external_body]
pub fn commit_on_head(
    repo: &git2::Repository,
    tree_hex: &String,
    message: &String,
    parent1: Option<&String>,
    parent2: Option<&String>,
) -> (r: Result<String, GitError>)
    ensures
        r is Err ==> (r->Err_0.kind == GitErrorKind::SignatureMissing || r->Err_0.kind
            == GitErrorKind::ObjectNotFound || r->Err_0.kind == GitErrorKind::StoreError),
{
    let sig = repo.signature().map_err(|e| gerr(GitErrorKind::SignatureMissing, e))?;
    let to = git2::Oid::from_str(tree_hex.as_str()).map_err(oerr)?;
    let tree = repo.find_tree(to).map_err(oerr)?;
    let mut parents: Vec<git2::Commit<'_>> = Vec::new();
    for p in [parent1, parent2].iter().flatten() {
        parents.push(lookup_commit(repo, p)?);
    }
    let prefs: Vec<&git2::Commit<'_>> = parents.iter().collect();
    repo.commit(Some("HEAD"), &sig, &sig, message.as_str(), &tree, &prefs)
        .map(|o| o.to_string())
        .map_err(serr)
}

/// Relies on git2::Repository::find_commit: the commit with the given id.
#[verifier::external_body]
fn lookup_commit<'r>(repo: &'r git2::Repository, hex: &String) -> Result<git2::Commit<'r>, GitError> {
    let oid = git2::Oid::from_str(hex.as_str()).map_err(oerr)?;
    repo.find_commit(oid).map_err(oerr)
}

/// Relies on git2::Repository::index and git2::Index::{add_all, write,
/// write_tree}: stages every path of the working tree into the repository's
/// index, writes the index, and returns the id of the tree it writes.
#[verifier::external_body]
pub fn stage_all_and_write_tree(repo: &git2::Repository) -> (r: Result<String, GitError>)
    ensures
        r is Err ==> r->Err_0.kind == GitErrorKind::StoreError,
{
    let mut index = repo.index().map_err(serr)?;
    index
        .add_all(["*"].iter(), git2::IndexAddOption::DEFAULT, None)
        .map_err(serr)?;
    index.write().map_err(serr)?;
    index
        .write_tree()
        .map(|o| o.to_string())
        .map_err(serr)
}

/// Relies on git2::Repository::head and git2::Reference::{is_branch,
/// peel_to_commit}: the commit a branch-shaped HEAD points at; nothing when
/// HEAD is unborn or detached.
#[verifier::external_body]
pub fn head_parent_commit(repo: &git2::Repository) -> (r: Result<Option<String>, GitError>)
    ensures
        r is Err ==> r->Err_0.kind == GitErrorKind::ObjectNotFound,
{
    match repo.head() {
        Err(_) => Ok(None),
        Ok(h) => {
            if h.is_branch() {
                let c = h.peel_to_commit().map_err(oerr)?;
                Ok(Some(c.id().to_string()))
            } else {
                Ok(None)
            }
        },
    }
}

/// Relies on git2::Repository::remotes: the names of the configured
/// remotes.
#[verifier::external_body]
pub fn remote_names(repo: &git2::Repository) -> Result<Vec<String>, GitError> {
    let names = repo.remotes().map_err(serr)?;
    Ok(names.iter().map(|n| n.unwrap_or(Some("")).unwrap_or("").to_string()).collect())
}

/// Relies on git2::Repository::branches and git2::Branch::name: the names
/// of the local branches, or of the remote-tracking branches when `remote`
/// is set, in listing order.
#[verifier::external_body]
pub fn branch_names(repo: &git2::Repository, remote: bool) -> (r: Result<Vec<String>, GitError>)
    ensures
        r is Err ==> r->Err_0.kind == GitErrorKind::StoreError,
{
    let kind = if remote { git2::BranchType::Remote } else { git2::BranchType::Local };
    let mut v: Vec<String> = Vec::new();
    for b in repo.branches(Some(kind)).map_err(serr)? {
        let (b, _) = b.map_err(serr)?;
        v.push(b.name().map_err(serr)?.unwrap_or("").to_string());
    }
    Ok(v)
}

/// Relies on git2::Repository::is_empty; an error reads as not empty, as
/// the original listing treats it.
#[verifier::external_body]
pub fn repo_is_empty(repo: &git2::Repository) -> bool {
    repo.is_empty().unwrap_or(false)
}

/// Relies on git2::Repository::statuses with untracked files included and
/// recursed, and git2::Status::is_{index_new, index_modified, index_deleted,
/// wt_new, wt_modified, wt_deleted}: each entry's flags as plain booleans.
#[verifier::external_body]
pub fn status_entries(repo: &git2::Repository) -> Result<Vec<crate::types::StatusFlags>, GitError> {
    let mut opts = git2::StatusOptions::new();
    opts.include_untracked(true).recurse_untracked_dirs(true);
    let statuses = repo.statuses(Some(&mut opts)).map_err(serr)?;
    let mut v: Vec<crate::types::StatusFlags> = Vec::new();
    for entry in statuses.iter() {
        let s = entry.status();
        v.push(crate::types::StatusFlags {
            index_new: s.is_index_new(), index_modified: s.is_index_modified(),
            index_deleted: s.is_index_deleted(), wt_new: s.is_wt_new(),
            wt_modified: s.is_wt_modified(), wt_deleted: s.is_wt_deleted(),
        });
    }
    Ok(v)
}

/// Relies on git2::Repository::find_branch with the local branch type.
#[verifier::external_body]
pub fn local_branch_exists(repo: &git2::Repository, name: &String) -> Result<bool, GitError> {
    match repo.find_branch(name.as_str(), git2::BranchType::Local) {
        Ok(_) => Ok(true),
        Err(e) if e.code() == git2::ErrorCode::NotFound => Ok(false),
        Err(e) => Err(gerr(GitErrorKind::StoreError, e)),
    }
}

/// Relies on git2::Repository::find_reference and git2::Reference::target:
/// the commit id a reference points at, or nothing when the reference does
/// not exist or points at no commit.
#[verifier::external_body]
pub fn reference_target(repo: &git2::Repository, refname: &String) -> (r: Result<
    Option<String>,
    GitError,
>)
    ensures
        r is Err ==> r->Err_0.kind == GitErrorKind::StoreError,
{
    match repo.find_reference(refname.as_str()) {
        Ok(r) => Ok(r.target().map(|o| o.to_string())),
        Err(e) if e.code() == git2::ErrorCode::NotFound => Ok(None),
        Err(e) => Err(gerr(GitErrorKind::StoreError, e)),
    }
}

/// Relies on git2::Repository::{find_commit, branch}: creates a local
/// branch of the given name at the commit, overwriting an existing branch
/// only when `force` is set.
#[verifier::external_body]
pub fn create_branch(
    repo: &git2::Repository,
    name: &String,
    target_hex: &String,
    force: bool,
) -> (r: Result<(), GitError>)
    ensures
        r is Err ==> (r->Err_0.kind == GitErrorKind::ObjectNotFound || r->Err_0.kind
            == GitErrorKind::StoreError),
{
    let oid = git2::Oid::from_str(target_hex.as_str()).map_err(oerr)?;
    let commit = repo.find_commit(oid).map_err(oerr)?;
    repo.branch(name.as_str(), &commit, force)
        .map(|_| ())
        .map_err(serr)
}

/// Relies on git2::Repository::set_head.
#[verifier::external_body]
pub fn set_head(repo: &git2::Repository, refname: &String) -> (r: Result<(), GitError>)
    ensures
        r is Err ==> r->Err_0.kind == GitErrorKind::StoreError,
{
    repo.set_head(refname.as_str()).map_err(serr)
}

/// Relies on git2::Repository::set_head_detached.
#[verifier::external_body]
pub fn set_head_detached(repo: &git2::Repository, oid_hex: &String) -> (r: Result<(), GitError>)
    ensures
        r is Err ==> (r->Err_0.kind == GitErrorKind::ObjectNotFound || r->Err_0.kind
            == GitErrorKind::StoreError),
{
    let oid = git2::Oid::from_str(oid_hex.as_str()).map_err(oerr)?;
    repo.set_head_detached(oid).map_err(serr)
}

/// Relies on git2::Repository::checkout_head and git2::build::
/// CheckoutBuilder::{force, remove_untracked, safe}: updates the working
/// tree to HEAD under the given checkout mode.
#[verifier::external_body]
pub fn checkout_head_with(repo: &git2::Repository, mode: CheckoutMode) -> (r: Result<
    (),
    GitError,
>)
    ensures
        r is Err ==> r->Err_0.kind == GitErrorKind::BlobWriteError,
{
    let r = match mode {
        CheckoutMode::ForceRemoveUntracked => {
            repo.checkout_head(Some(git2::build::CheckoutBuilder::default().force().remove_untracked(true)))
        },
        CheckoutMode::Force => repo.checkout_head(Some(git2::build::CheckoutBuilder::default().force())),
        CheckoutMode::Safe => repo.checkout_head(Some(git2::build::CheckoutBuilder::default().safe())),
        CheckoutMode::Plain => repo.checkout_head(None),
    };
    r.map_err(|e| gerr(GitErrorKind::BlobWriteError, e))
}

/// Relies on git2::Repository::revparse_single and
/// git2::Repository::find_commit: the id of the commit the revision string
/// resolves to, or nothing when it resolves to none.
#[verifier::external_body]
pub fn revparse_commit(repo: &git2::Repository, target: &String) -> Result<Option<String>, GitError> {
    let obj = match repo.revparse_single(target.as_str()) {
        Ok(o) => o,
        Err(_) => return Ok(None),
    };
    match repo.find_commit(obj.id()) {
        Ok(c) => Ok(Some(c.id().to_string())),
        Err(_) => Ok(None),
    }
}

/// Relies on git2::Repository::revwalk: a fresh revision walk over the
/// repository, in the default (reverse-chronological graph) sort order.
#[verifier::external_body]
pub fn revwalk<'repo>(repo: &'repo git2::Repository) -> (r: Result<
    git2::Revwalk<'repo>,
    GitError,
>)
    ensures
        r is Err ==> r->Err_0.kind == GitErrorKind::StoreError,
{
    repo.revwalk().map_err(serr)
}

/// Relies on git2::Revwalk::push: roots the walk at the given commit.
#[verifier::external_body]
pub fn walk_push(walk: &mut git2::Revwalk<'_>, oid_hex: &String) -> (r: Result<(), GitError>)
    ensures
        r is Err ==> r->Err_0.kind == GitErrorKind::ObjectNotFound,
{
    let oid = git2::Oid::from_str(oid_hex.as_str()).map_err(oerr)?;
    walk.push(oid).map_err(oerr)
}

/// Relies on git2::Revwalk::push_range: walks the commits reachable from
/// `new` but not from `old`.
#[verifier::external_body]
pub fn walk_push_range(
    walk: &mut git2::Revwalk<'_>,
    old_hex: &String,
    new_hex: &String,
) -> (r: Result<(), GitError>)
    ensures
        r is Err ==> r->Err_0.kind == GitErrorKind::ObjectNotFound,
{
    let range = format!("{}..{}", old_hex, new_hex);
    walk.push_range(&range).map_err(oerr)
}

/// Relies on the Iterator impl of git2::Revwalk: the next commit id of the
/// walk, or nothing once it is exhausted. The id is `Oid`'s canonical
/// rendering, forty lowercase hexadecimal digits; a walk failure carries the
/// store-error kind.
#[verifier::external_body]
pub fn walk_next(walk: &mut git2::Revwalk<'_>) -> (r: Result<Option<String>, GitError>)
    ensures
        r is Ok && r->Ok_0 is Some ==> spec_is_oid_hex(r->Ok_0->0@),
        r is Err ==> r->Err_0.kind == GitErrorKind::StoreError,
{
    match walk.next() {
        None => Ok(None),
        Some(Ok(oid)) => Ok(Some(oid.to_string())),
        Some(Err(e)) => Err(gerr(GitErrorKind::StoreError, e)),
    }
}

/// Relies on git2::Repository::{find_commit, find_object},
/// git2::Object::short_id and git2::Commit::{summary, time}: one commit's
/// abbreviated id, one-line summary, and commit time in seconds since the
/// Unix epoch. The given id must be canonical (forty lowercase hexadecimal
/// digits): the abbreviation is always rendered lowercase, so only then is
/// it a textual prefix of the given id (the unreadable fallback, an empty
/// string, is one too, vacuously). Every failure carries the object-lookup
/// kind.
#[verifier::external_body]
pub fn commit_summary(repo: &git2::Repository, oid_hex: &String) -> (r: Result<
    (String, String, i64),
    GitError,
>)
    requires
        spec_is_oid_hex(oid_hex@),
    ensures
        r is Ok ==> spec_has_prefix(oid_hex@, r->Ok_0.0@),
        r is Err ==> r->Err_0.kind == GitErrorKind::ObjectNotFound,
{
    let oid = git2::Oid::from_str(oid_hex.as_str()).map_err(oerr)?;
    let commit = repo.find_commit(oid).map_err(oerr)?;
    let short = repo
        .find_object(oid, None)
        .and_then(|o| o.short_id())
        .map_err(oerr)?;
    Ok((
        short.as_str().unwrap_or("").to_string(),
        commit.summary().unwrap_or(None).unwrap_or("No summary").to_string(),
        commit.time().seconds(),
    ))
}

/// Relies on git2::Repository::{find_commit} and git2::Commit::
/// {parent_count, parent_id}: the id of the commit's first parent, or
/// nothing for a root commit.
#[verifier::external_body]
pub fn commit_parent0(repo: &git2::Repository, oid_hex: &String) -> (r: Result<
    Option<String>,
    GitError,
>)
    ensures
        r is Err ==> r->Err_0.kind == GitErrorKind::ObjectNotFound,
{
    let oid = git2::Oid::from_str(oid_hex.as_str()).map_err(oerr)?;
    let commit = repo.find_commit(oid).map_err(oerr)?;
    if commit.parent_count() > 0 {
        let p = commit.parent_id(0).map_err(oerr)?;
        Ok(Some(p.to_string()))
    } else {
        Ok(None)
    }
}

/// Relies on git2::Repository::find_commit and git2::Commit::tree_id: the
/// id of the commit's tree.
#[verifier::external_body]
pub fn commit_tree_hex(repo: &git2::Repository, oid_hex: &String) -> (r: Result<String, GitError>)
    ensures
        r is Err ==> r->Err_0.kind == GitErrorKind::ObjectNotFound,
{
    let oid = git2::Oid::from_str(oid_hex.as_str()).map_err(oerr)?;
    let commit = repo.find_commit(oid).map_err(oerr)?;
    Ok(commit.tree_id().to_string())
}

/// Relies on git2::DiffDelta::{new_file, old_file} and
/// git2::DiffFile::path: the delta's paths on each side, as text.
#[verifier::external_body]
fn delta_paths(d: &git2::DiffDelta<'_>) -> (Option<String>, Option<String>) {
    (
        d.new_file().path().map(|p| p.to_string_lossy().to_string()),
        d.old_file().path().map(|p| p.to_string_lossy().to_string()),
    )
}

/// Relies on git2::Repository::{find_commit, find_tree,
/// diff_tree_to_tree}, git2::DiffOptions, git2::Diff::foreach and
/// git2::DiffLine::origin: the per-line events of the tree-to-tree diff of
/// the two commits under the given options, each line carrying its delta's
/// paths and its marker, in diff order.
#[verifier::external_body]
pub fn diff_line_events(
    repo: &git2::Repository,
    a_hex: &String,
    b_hex: &String,
    policy: &DiffPolicy,
) -> Result<Vec<DiffLineEvent>, GitError> {
    let at = commit_tree(repo, a_hex)?;
    let bt = commit_tree(repo, b_hex)?;
    let mut opts = diff_options(policy);
    let diff = repo.diff_tree_to_tree(Some(&at), Some(&bt), Some(&mut opts)).map_err(derr)?;
    let mut v: Vec<DiffLineEvent> = Vec::new();
    diff.foreach(&mut |_d, _p| true, None, None, Some(&mut |d, _h, l| {
        let (np, op) = delta_paths(&d);
        v.push(DiffLineEvent { new_path: np, old_path: op, origin: l.origin() });
        true
    })).map_err(derr)?;
    Ok(v)
}

/// Relies on git2::Repository::find_commit and git2::Commit::tree: the tree
/// of the given commit.
#[verifier::external_body]
fn commit_tree<'r>(repo: &'r git2::Repository, hex: &String) -> Result<git2::Tree<'r>, GitError> {
    let oid = git2::Oid::from_str(hex.as_str()).map_err(derr)?;
    repo.find_commit(oid).and_then(|c| c.tree()).map_err(derr)
}

/// Relies on git2::Repository::find_tree: the tree with the given id.
#[verifier::external_body]
fn lookup_tree<'r>(repo: &'r git2::Repository, hex: &String) -> Result<git2::Tree<'r>, GitError> {
    let oid = git2::Oid::from_str(hex.as_str()).map_err(derr)?;
    repo.find_tree(oid).map_err(derr)
}

/// Relies on git2::DiffOptions: builds the option set the caller fixes —
/// context width, untracked handling, file-mode handling, orientation and
/// patience matching.
#[verifier::external_body]
fn diff_options(policy: &DiffPolicy) -> git2::DiffOptions {
    let mut opts = git2::DiffOptions::new();
    opts.context_lines(policy.context_lines);
    opts.include_untracked(policy.include_untracked);
    opts.show_untracked_content(policy.show_untracked_content);
    opts.include_unmodified(policy.include_unmodified);
    opts.ignore_filemode(policy.ignore_filemode);
    opts.reverse(policy.reverse);
    opts.patience(policy.patience);
    opts
}

/// Relies on git2::Repository::{find_tree, diff_tree_to_tree} and
/// git2::DiffDelta::new_file: the new-side path of every delta between the
/// two trees (the old side absent for a diff against no tree), in delta
/// order.
#[verifier::external_body]
pub fn tree_delta_paths(
    repo: &git2::Repository,
    old_tree_hex: Option<&String>,
    new_tree_hex: &String,
) -> Result<Vec<String>, GitError> {
    let nt = lookup_tree(repo, new_tree_hex)?;
    let ot = match old_tree_hex {
        Some(h) => Some(lookup_tree(repo, h)?),
        None => None,
    };
    let diff = repo.diff_tree_to_tree(ot.as_ref(), Some(&nt), None).map_err(derr)?;
    let mut v: Vec<String> = Vec::new();
    for delta in diff.deltas() {
        let (np, _) = delta_paths(&delta);
        v.push(np.unwrap_or_else(String::new));
    }
    Ok(v)
}

/// Relies on git2::Repository::{find_tree, diff_tree_to_tree} and
/// git2::Diff::print with the patch format: the textual patch between the
/// two trees (the old side absent for a diff against no tree).
#[verifier::external_body]
pub fn tree_patch_text(
    repo: &git2::Repository,
    old_tree_hex: Option<&String>,
    new_tree_hex: &String,
) -> (r: Result<String, GitError>)
    ensures
        r is Err ==> r->Err_0.kind == GitErrorKind::DiffReadError,
{
    let nt = lookup_tree(repo, new_tree_hex)?;
    let ot = match old_tree_hex {
        Some(h) => Some(lookup_tree(repo, h)?),
        None => None,
    };
    let diff = repo.diff_tree_to_tree(ot.as_ref(), Some(&nt), None).map_err(derr)?;
    let mut text = String::new();
    diff.print(git2::DiffFormat::Patch, |_d, _h, line| {
        text.push_str(&String::from_utf8_lossy(line.content()));
        true
    }).map_err(derr)?;
    Ok(text)
}

/// Relies on chrono::DateTime::from_timestamp and
/// chrono::DateTime::to_rfc3339: the RFC 3339 UTC rendering of a Unix
/// timestamp, or nothing when the timestamp is out of chrono's range. The
/// rendering is a function of the seconds alone.
#[verifier::external_body]
pub fn time_rfc3339(secs: i64) -> (r: Option<String>)
    ensures
        r is Some ==> r->0@ == rfc3339_utc_of(secs as int),
{
    chrono::DateTime::from_timestamp(secs, 0).map(|d| d.to_rfc3339())
}

} // verus!
