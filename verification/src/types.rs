//! Data types shared by the synchronization operations.

use vstd::prelude::*;

verus! {

/// Terminal states of the pull/push state machine. These are successful,
/// informative outcomes, distinct from the error taxonomy in [`GitErrorKind`].
#[derive(Debug, Clone, PartialEq, Eq, Structural)]
pub enum GResultEnum {
    Success,
    BranchNotExistsRemote,
    UncommittedChanges,
    UnPushedChanges,
    AlreadyUpToDate,
    NoRemoteConfigured,
}

/// An outcome tag paired with the payload an operation produced.
#[derive(Debug, Clone)]
pub struct GResult<T> {
    pub status: GResultEnum,
    pub result: T,
}

impl<T> GResult<T> {
    pub fn new(status: GResultEnum, result: T) -> (r: Self)
        ensures
            r.status == status,
            r.result == result,
    {
        GResult { result, status }
    }
}

/// The closed error taxonomy. Failures from the object store are wrapped,
/// preserving the underlying message, and surfaced as one of these kinds;
/// callers match on the kind rather than parse text.
#[derive(Debug, Clone, Copy, PartialEq, Eq, Structural)]
pub enum GitErrorKind {
    ConfigMissing,
    RemoteNotFound,
    NetworkError,
    AuthFailed,
    SignatureMissing,
    ObjectNotFound,
    BlobWriteError,
    DiffReadError,
    TargetNotFound,
    NoHead,
    StoreError,
}

/// A terminal, non-retried failure: a kind from the closed taxonomy and the
/// preserved message of the underlying store or transport failure.
#[derive(Debug, Clone)]
pub struct GitError {
    pub kind: GitErrorKind,
    pub message: String,
}

impl GitError {
    pub fn new(kind: GitErrorKind, message: String) -> (r: Self)
        ensures
            r.kind == kind,
            r.message == message,
    {
        GitError { kind, message }
    }

    /// The human-readable rendering handed across the outward boundary.
    pub fn message(&self) -> (m: String)
        ensures
            m@ == self.message@,
    {
        self.message.clone()
    }
}

/// The tracking association of the branch HEAD points at: its name, the
/// remote it is tied to (empty when no upstream is configured), and the
/// commit id HEAD resolves to, as a hexadecimal object id.
#[derive(Debug, Clone)]
pub struct CurrentBranchInfo {
    pub commit_id: String,
    pub remote_name: String,
    pub branch_name: String,
}

/// Added/removed line counts for one file path, keyed by the new-file path
/// (falling back to the old path when the file was deleted).
#[derive(Debug, Clone)]
pub struct FileChange {
    pub path: String,
    pub lines_added: usize,
    pub lines_removed: usize,
}

/// The report a successful pull returns: the old and new head (shortened
/// ids), how many commits arrived, and the per-file change statistics.
/// Paths in `file_changes` are unique.
#[derive(Debug, Clone)]
pub struct PullUpdateInfo {
    pub new_commit_id: String,
    pub old_commit_id: String,
    pub num_commits: usize,
    pub file_changes: Vec<FileChange>,
}

/// One local or remote branch, tagged with whether it is the branch the
/// repository currently has checked out.
#[derive(Debug, Clone)]
pub struct BranchInfo {
    pub branch_name: String,
    pub branch_type: String,
    pub is_current: bool,
}

/// A read-only projection of one commit for history listings.
#[derive(Debug, Clone)]
pub struct CommitInfo {
    pub full_id: String,
    pub short_id: String,
    pub summary: String,
    pub time: String,
}

/// The relationship between local HEAD and the fetched remote head,
/// computed fresh per pull and never persisted.
#[derive(Debug, Clone, Copy, PartialEq, Eq, Structural)]
pub enum MergeAnalysis {
    UpToDate,
    FastForwardable,
    NormalMerge,
}

/// Which credential the transport is handed during authentication.
#[derive(Debug, Clone, Copy, PartialEq, Eq, Structural)]
pub enum CredentialChoice {
    SshAgent,
    UserPass,
    NoneAvailable,
}

/// One side of a conflicted index entry: the path it would occupy — as the
/// bytes the index stores, since index paths need not be valid text — and
/// the blob (hexadecimal object id, file mode) it carries.
#[derive(Debug, Clone)]
pub struct BlobRef {
    pub path: Vec<u8>,
    pub id: String,
    pub mode: u32,
}

/// A conflicted path in a merge index: the local side, the incoming remote
/// side, and the common ancestor, each possibly absent. The underlying merge
/// guarantees at least one side is present.
#[derive(Debug, Clone)]
pub struct ConflictEntry {
    pub ours: Option<BlobRef>,
    pub theirs: Option<BlobRef>,
    pub ancestor: Option<BlobRef>,
}

/// One line of a tree-to-tree diff: the paths on each side of the delta it
/// belongs to, and the diff marker (`'+'` added, `'-'` removed, anything
/// else context or metadata).
#[derive(Debug, Clone)]
pub struct DiffLineEvent {
    pub new_path: Option<String>,
    pub old_path: Option<String>,
    pub origin: char,
}

/// The status flags of one working-tree or index entry that count as an
/// uncommitted change.
#[derive(Debug, Clone, Copy, PartialEq, Eq, Structural)]
pub struct StatusFlags {
    pub index_new: bool,
    pub index_modified: bool,
    pub index_deleted: bool,
    pub wt_new: bool,
    pub wt_modified: bool,
    pub wt_deleted: bool,
}

/// What the checkout resolver decided for a target, in precedence order: an
/// existing local branch; a new local branch at the commit the current
/// remote's tracking ref carries; a detached checkout of the commit a
/// revision resolved to; or nothing matched.
#[derive(Debug, Clone)]
pub enum CheckoutChoice {
    LocalBranch,
    RemoteBranch(String),
    DetachedCommit(String),
    TargetMissing,
}

/// How a checkout updates the working tree: forced with untracked files
/// removed (switching branches), forced (fast-forward), safe and
/// non-destructive (detaching), or with the store's defaults.
#[derive(Debug, Clone, Copy, PartialEq, Eq, Structural)]
pub enum CheckoutMode {
    ForceRemoveUntracked,
    Force,
    Safe,
    Plain,
}

/// The diff options the statistics aggregator fixes: context width, how
/// untracked content is treated, whether file-mode changes are ignored,
/// whether the diff is reversed, and patience matching.
#[derive(Debug, Clone, Copy, PartialEq, Eq, Structural)]
pub struct DiffPolicy {
    pub context_lines: u32,
    pub include_untracked: bool,
    pub show_untracked_content: bool,
    pub include_unmodified: bool,
    pub ignore_filemode: bool,
    pub reverse: bool,
    pub patience: bool,
}

} // verus!
