//! The policy decisions of the synchronization engine, as pure verified
//! functions: credential priority, pull classification, merge-analysis
//! ranking, conflict winner selection, push gating, diff path selection and
//! working-tree status tests.

use crate::types::{
    BlobRef, CheckoutChoice, ConflictEntry, CredentialChoice, DiffLineEvent, GResultEnum,
    MergeAnalysis, StatusFlags,
};
use vstd::prelude::*;

verus! {

/// What the pull state machine does after fetch, once the remote head of the
/// current branch is known (or known to be absent).
#[derive(Debug, Clone, Copy, PartialEq, Eq, Structural)]
pub enum PullCheck {
    BranchMissing,
    UpToDate,
    Proceed,
}

/// Credentials are offered in a fixed priority order: an SSH-agent key when
/// the transport supports it, then plaintext username/password, else nothing.
pub open spec fn spec_choose_credential(ssh_key_offered: bool, userpass_offered: bool) -> CredentialChoice {
    if ssh_key_offered {
        CredentialChoice::SshAgent
    } else if userpass_offered {
        CredentialChoice::UserPass
    } else {
        CredentialChoice::NoneAvailable
    }
}

pub fn choose_credential(ssh_key_offered: bool, userpass_offered: bool) -> (r: CredentialChoice)
    ensures
        r == spec_choose_credential(ssh_key_offered, userpass_offered),
{
    if ssh_key_offered {
        CredentialChoice::SshAgent
    } else if userpass_offered {
        CredentialChoice::UserPass
    } else {
        CredentialChoice::NoneAvailable
    }
}

/// After fetch: a branch absent from the remote ends the pull; a remote head
/// equal to local HEAD means there is nothing to do; otherwise the merge
/// classifier runs.
pub open spec fn spec_pull_check(remote_head: Option<Seq<char>>, local_head: Seq<char>) -> PullCheck {
    match remote_head {
        Option::None => PullCheck::BranchMissing,
        Option::Some(h) => if h == local_head {
            PullCheck::UpToDate
        } else {
            PullCheck::Proceed
        },
    }
}

pub fn pull_check(remote_head: &Option<String>, local_head: &String) -> (r: PullCheck)
    ensures
        r == spec_pull_check(
            match *remote_head {
                Option::None => Option::<Seq<char>>::None,
                Option::Some(h) => Option::Some(h@),
            },
            local_head@,
        ),
{
    match remote_head {
        Option::None => PullCheck::BranchMissing,
        Option::Some(h) => {
            if *h == *local_head {
                PullCheck::UpToDate
            } else {
                PullCheck::Proceed
            }
        },
    }
}

/// The merge-analysis ranking: already up to date wins over fast-forward,
/// and anything else requires a normal three-way merge.
pub open spec fn spec_classify_analysis(up_to_date: bool, fast_forward: bool) -> MergeAnalysis {
    if up_to_date {
        MergeAnalysis::UpToDate
    } else if fast_forward {
        MergeAnalysis::FastForwardable
    } else {
        MergeAnalysis::NormalMerge
    }
}

pub fn classify_analysis(up_to_date: bool, fast_forward: bool) -> (r: MergeAnalysis)
    ensures
        r == spec_classify_analysis(up_to_date, fast_forward),
{
    if up_to_date {
        MergeAnalysis::UpToDate
    } else if fast_forward {
        MergeAnalysis::FastForwardable
    } else {
        MergeAnalysis::NormalMerge
    }
}

/// The conflict resolution policy: the incoming remote version when present,
/// else the local version, else the common ancestor. Whole files only; no
/// content-level merging, so local edits lose whenever both sides touched
/// the same file.
pub open spec fn spec_winner(c: ConflictEntry) -> Option<BlobRef> {
    if c.theirs is Some {
        c.theirs
    } else if c.ours is Some {
        c.ours
    } else {
        c.ancestor
    }
}

pub fn pick_winner<'a>(c: &'a ConflictEntry) -> (r: Option<&'a BlobRef>)
    ensures
        match r {
            Option::Some(b) => spec_winner(*c) == Option::Some(*b),
            Option::None => spec_winner(*c) is None,
        },
{
    match &c.theirs {
        Option::Some(b) => Option::Some(b),
        Option::None => match &c.ours {
            Option::Some(b) => Option::Some(b),
            Option::None => match &c.ancestor {
                Option::Some(b) => Option::Some(b),
                Option::None => Option::None,
            },
        },
    }
}

/// Every blob id a conflict entry carries is a canonical object id: forty
/// lowercase hexadecimal digits.
pub open spec fn spec_conflict_ids_hex(c: ConflictEntry) -> bool {
    &&& c.ours is Some ==> crate::strutil::spec_is_oid_hex(c.ours->0.id@)
    &&& c.theirs is Some ==> crate::strutil::spec_is_oid_hex(c.theirs->0.id@)
    &&& c.ancestor is Some ==> crate::strutil::spec_is_oid_hex(c.ancestor->0.id@)
}

/// Two conflict entries resolve to different paths (vacuous when either has
/// no winner).
pub open spec fn spec_winner_paths_differ(a: ConflictEntry, b: ConflictEntry) -> bool {
    spec_winner(a) is Some && spec_winner(b) is Some ==> spec_winner(a)->0.path@ != spec_winner(
        b,
    )->0.path@
}

/// The upstream gate of a pull: an empty remote name signals that the
/// current branch has no upstream configured, and the pull ends before any
/// network work.
pub fn upstream_gate(remote_name: &String) -> (r: Option<GResultEnum>)
    ensures
        r == (if remote_name@.len() == 0 {
            Option::Some(GResultEnum::NoRemoteConfigured)
        } else {
            Option::<GResultEnum>::None
        }),
{
    if remote_name.as_str().is_empty() {
        Option::Some(GResultEnum::NoRemoteConfigured)
    } else {
        Option::None
    }
}

/// The early verdicts of the unpushed-commit check, in the order the
/// evidence is gathered: a detached HEAD or a headless branch has nothing to
/// push; a branch without tracking configuration, or whose tracking ref is
/// gone, counts as having unpushed work; only with every piece present does
/// the range walk decide.
pub fn unpushed_precheck(
    is_branch: bool,
    head_commit: &Option<String>,
    remote_name: &Option<String>,
    merge_ref: &Option<String>,
    tracking_target: &Option<String>,
) -> (r: Option<bool>)
    ensures
        r is None <==> (is_branch && head_commit is Some && remote_name is Some
            && merge_ref is Some && tracking_target is Some),
        !is_branch ==> r == Option::Some(false),
        is_branch && head_commit is None ==> r == Option::Some(false),
        is_branch && head_commit is Some && remote_name is None ==> r == Option::Some(true),
        is_branch && head_commit is Some && remote_name is Some && merge_ref is None ==> r
            == Option::Some(true),
        is_branch && head_commit is Some && remote_name is Some && merge_ref is Some
            && tracking_target is None ==> r == Option::Some(true),
{
    if !is_branch {
        return Option::Some(false);
    }
    if head_commit.is_none() {
        return Option::Some(false);
    }
    if remote_name.is_none() {
        return Option::Some(true);
    }
    if merge_ref.is_none() {
        return Option::Some(true);
    }
    if tracking_target.is_none() {
        return Option::Some(true);
    }
    Option::None
}

/// The range walk's answer: unpushed commits exist exactly when the walk
/// yielded a first commit.
pub fn range_nonempty(first: &Option<String>) -> (r: bool)
    ensures
        r == (first is Some),
{
    first.is_some()
}

/// The checkout resolver's decision, in strict precedence order: an existing
/// local branch wins; else a remote-tracking ref's commit, checked out as a
/// new local branch; else any revision that resolved to a commit, checked
/// out detached; else nothing matched.
pub fn checkout_choice(
    local_exists: bool,
    remote_target: &Option<String>,
    rev_commit: &Option<String>,
) -> (r: CheckoutChoice)
    ensures
        local_exists ==> r is LocalBranch,
        !local_exists && remote_target is Some ==> r is RemoteBranch && r->RemoteBranch_0@
            == remote_target->0@,
        !local_exists && remote_target is None && rev_commit is Some ==> r is DetachedCommit
            && r->DetachedCommit_0@ == rev_commit->0@,
        !local_exists && remote_target is None && rev_commit is None ==> r is TargetMissing,
{
    if local_exists {
        CheckoutChoice::LocalBranch
    } else {
        match remote_target {
            Option::Some(oid) => CheckoutChoice::RemoteBranch(oid.clone()),
            Option::None => match rev_commit {
                Option::Some(oid) => CheckoutChoice::DetachedCommit(oid.clone()),
                Option::None => CheckoutChoice::TargetMissing,
            },
        }
    }
}

/// The push gate: no configured remote ends the push, unpushed local commits
/// refuse it, and only otherwise does the transport run.
pub open spec fn spec_push_gate(remote_name_empty: bool, unpushed: bool) -> Option<GResultEnum> {
    if remote_name_empty {
        Option::Some(GResultEnum::NoRemoteConfigured)
    } else if unpushed {
        Option::Some(GResultEnum::UnPushedChanges)
    } else {
        Option::None
    }
}

pub fn push_gate(remote_name_empty: bool, unpushed: bool) -> (r: Option<GResultEnum>)
    ensures
        r == spec_push_gate(remote_name_empty, unpushed),
{
    if remote_name_empty {
        Option::Some(GResultEnum::NoRemoteConfigured)
    } else if unpushed {
        Option::Some(GResultEnum::UnPushedChanges)
    } else {
        Option::None
    }
}

/// The path a diff line is charged to: the new-file path, falling back to
/// the old-file path when the file was deleted, else empty.
pub open spec fn spec_event_path(e: DiffLineEvent) -> Seq<char> {
    if e.new_path is Some {
        e.new_path->0@
    } else if e.old_path is Some {
        e.old_path->0@
    } else {
        Seq::<char>::empty()
    }
}

pub fn event_path(e: &DiffLineEvent) -> (r: String)
    ensures
        r@ == spec_event_path(*e),
{
    match &e.new_path {
        Option::Some(p) => p.clone(),
        Option::None => match &e.old_path {
            Option::Some(p) => p.clone(),
            Option::None => String::new(),
        },
    }
}

/// A status entry counts as an uncommitted change when it is new, modified
/// or deleted, in the index or in the working tree.
pub open spec fn spec_status_dirty(s: StatusFlags) -> bool {
    s.index_new || s.index_modified || s.index_deleted || s.wt_new || s.wt_modified || s.wt_deleted
}

pub fn status_dirty(s: &StatusFlags) -> (r: bool)
    ensures
        r == spec_status_dirty(*s),
{
    s.index_new || s.index_modified || s.index_deleted || s.wt_new || s.wt_modified || s.wt_deleted
}

/// The repository has uncommitted changes exactly when some status entry
/// counts as one.
pub open spec fn spec_any_dirty(ss: Seq<StatusFlags>) -> bool {
    exists|i: int| 0 <= i < ss.len() && spec_status_dirty(ss[i])
}

pub fn any_dirty(ss: &Vec<StatusFlags>) -> (r: bool)
    ensures
        r == spec_any_dirty(ss@),
{
    let mut i: usize = 0;
    while i < ss.len()
        invariant
            0 <= i <= ss@.len(),
            forall|j: int| 0 <= j < i ==> !spec_status_dirty(ss@[j]),
        decreases ss@.len() - i,
    {
        if status_dirty(&ss[i]) {
            return true;
        }
        i = i + 1;
    }
    false
}

/// A pull that finds the remote head equal to local HEAD is already up to
/// date and proceeds to no further state.
pub proof fn lemma_pull_up_to_date(h: Seq<char>)
    ensures
        spec_pull_check(Option::Some(h), h) == PullCheck::UpToDate,
{
}

/// Whenever the incoming remote side of a conflict exists, it is the winner;
/// without it the local side wins; the ancestor only remains as a last
/// resort.
pub proof fn lemma_winner_priority(c: ConflictEntry)
    ensures
        c.theirs is Some ==> spec_winner(c) == c.theirs,
        c.theirs is None && c.ours is Some ==> spec_winner(c) == c.ours,
        c.theirs is None && c.ours is None ==> spec_winner(c) == c.ancestor,
{
}

} // verus!
