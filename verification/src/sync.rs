//! Planning of the one-shot upload of the local tree into the remote
//! container: which remote directory to create and which file to write for
//! each entry the ignore-aware walk produced.

use vstd::prelude::*;
use crate::workspace::StatOutcome;

verus! {

/// How a remote directory creation during sync ended.
pub enum EnsureDirOutcome {
    /// The directory was created.
    Created,
    /// The creation failed but the path is an existing directory: benign,
    /// logged and not propagated.
    AlreadyThere,
    /// The creation failed and the path is not an existing directory: fatal.
    Fatal,
}

/// Decides whether a failed directory creation may be swallowed: only when
/// the path turns out to exist and be a directory — the failure detail is
/// inspected rather than assumed — any other failure aborts the sync.
pub fn ensure_dir_outcome(created: bool, stat: &StatOutcome) -> (r: EnsureDirOutcome)
    ensures
        r == (if created {
            EnsureDirOutcome::Created
        } else {
            match stat {
                StatOutcome::ExistsDir => EnsureDirOutcome::AlreadyThere,
                _ => EnsureDirOutcome::Fatal,
            }
        }),
{
    if created {
        EnsureDirOutcome::Created
    } else {
        match stat {
            StatOutcome::ExistsDir => EnsureDirOutcome::AlreadyThere,
            _ => EnsureDirOutcome::Fatal,
        }
    }
}

/// Kind of a walked local entry.
pub enum EntryKind {
    File,
    Directory,
}

/// One entry of the ignore-aware walk: where it lies locally and where it
/// lies relative to the walk's root (empty for the root itself).
pub struct SyncEntry {
    pub local_path: String,
    pub relative_path: String,
    pub kind: EntryKind,
}

/// One remote operation of the upload plan.
pub enum SyncAction {
    /// Create the remote directory (tolerating one that already exists).
    EnsureDir(String),
    /// Read the local file whole and write it verbatim to the remote path.
    Upload(String, String),
}

impl SyncAction {
    /// The remote destination of the action.
    pub open spec fn dest(&self) -> Seq<char> {
        match self {
            SyncAction::EnsureDir(d) => d@,
            SyncAction::Upload(_, d) => d@,
        }
    }

    /// The local file read by an upload (empty for a directory action).
    pub open spec fn source(&self) -> Seq<char> {
        match self {
            SyncAction::EnsureDir(_) => Seq::empty(),
            SyncAction::Upload(s, _) => s@,
        }
    }
}

/// The remote destination of an entry: the container itself for the walk's
/// root, otherwise the relative path joined below the container.
pub open spec fn joined(base: Seq<char>, rel: Seq<char>) -> Seq<char> {
    if rel.len() == 0 {
        base
    } else {
        base + "/"@ + rel
    }
}

/// Whether `a` is the planned action for `e` under `container`: same kind,
/// destination joined below the container, and for a file the very local
/// path the walk produced.
pub open spec fn action_matches(container: Seq<char>, e: SyncEntry, a: SyncAction) -> bool {
    &&& (a is EnsureDir <==> e.kind is Directory)
    &&& a.dest() == joined(container, e.relative_path@)
    &&& (a is Upload ==> a.source() == e.local_path@)
}

/// Plans the remote operation for one walked entry.
pub fn plan_entry(container: &str, e: &SyncEntry) -> (a: SyncAction)
    ensures
        action_matches(container@, *e, a),
{
    let mut dest = container.to_owned();
    if e.relative_path.as_str().unicode_len() > 0 {
        dest.append("/");
        dest.append(e.relative_path.as_str());
    }
    match e.kind {
        EntryKind::Directory => SyncAction::EnsureDir(dest),
        EntryKind::File => SyncAction::Upload(e.local_path.clone(), dest),
    }
}

/// Plans a whole run's upload. With `skip_sync` the plan is exactly one
/// creation of the (empty) container, whatever the local tree holds, so the
/// remote working directory is well-defined regardless of sync; otherwise
/// one action per walked entry, in walk order.
pub fn sync_plan(container: &str, entries: &Vec<SyncEntry>, skip_sync: bool) -> (v: Vec<
    SyncAction,
>)
    ensures
        skip_sync ==> v@.len() == 1 && v@[0] is EnsureDir && v@[0].dest() == container@,
        !skip_sync ==> v@.len() == entries@.len() && (forall|i: int|
            0 <= i < entries@.len() ==> action_matches(container@, entries@[i], #[trigger] v@[i])),
{
    let mut v: Vec<SyncAction> = Vec::new();
    if skip_sync {
        v.push(SyncAction::EnsureDir(container.to_owned()));
        return v;
    }
    let n = entries.len();
    let mut i: usize = 0;
    while i < n
        invariant
            0 <= i <= n,
            n == entries@.len(),
            v@.len() == i,
            forall|k: int| 0 <= k < i ==> action_matches(container@, entries@[k], #[trigger] v@[k]),
        decreases n - i,
    {
        let a = plan_entry(container, &entries[i]);
        v.push(a);
        i += 1;
    }
    v
}

/// How many file entries a walk produced.
pub open spec fn file_count(entries: Seq<SyncEntry>) -> nat
    decreases entries.len(),
{
    if entries.len() == 0 {
        0
    } else {
        file_count(entries.drop_last()) + (if entries.last().kind is File {
            1nat
        } else {
            0nat
        })
    }
}

/// How many directory entries a walk produced.
pub open spec fn dir_count(entries: Seq<SyncEntry>) -> nat
    decreases entries.len(),
{
    if entries.len() == 0 {
        0
    } else {
        dir_count(entries.drop_last()) + (if entries.last().kind is Directory {
            1nat
        } else {
            0nat
        })
    }
}

/// How many uploads a plan holds.
pub open spec fn upload_count(actions: Seq<SyncAction>) -> nat
    decreases actions.len(),
{
    if actions.len() == 0 {
        0
    } else {
        upload_count(actions.drop_last()) + (if actions.last() is Upload {
            1nat
        } else {
            0nat
        })
    }
}

/// How many directory creations a plan holds.
pub open spec fn ensure_dir_count(actions: Seq<SyncAction>) -> nat
    decreases actions.len(),
{
    if actions.len() == 0 {
        0
    } else {
        ensure_dir_count(actions.drop_last()) + (if actions.last() is EnsureDir {
            1nat
        } else {
            0nat
        })
    }
}

/// Law: a plan over a walk of N non-ignored files and M non-ignored
/// directories holds exactly N uploads and M directory creations — every
/// file is uploaded (with its walk-given local source and its relative path
/// joined below the container, per `action_matches`) and every directory,
/// empty ones included, gets a remote directory.
pub proof fn lemma_sync_counts(
    container: Seq<char>,
    entries: Seq<SyncEntry>,
    actions: Seq<SyncAction>,
)
    requires
        actions.len() == entries.len(),
        forall|i: int| 0 <= i < entries.len() ==> action_matches(container, entries[i], #[trigger] actions[i]),
    ensures
        upload_count(actions) == file_count(entries),
        ensure_dir_count(actions) == dir_count(entries),
    decreases entries.len(),
{
    if entries.len() > 0 {
        assert(forall|i: int|
            0 <= i < entries.len() - 1 ==> action_matches(
                container,
                entries.drop_last()[i],
                #[trigger] actions.drop_last()[i],
            ));
        lemma_sync_counts(container, entries.drop_last(), actions.drop_last());
        assert(action_matches(container, entries[entries.len() - 1], actions[entries.len() - 1]));
        assert(entries.last().kind is File ==> !(entries.last().kind is Directory));
        assert(entries.last().kind is File <==> actions.last() is Upload);
    }
}

/// Law: the plan invents nothing — every upload reads a local path that some
/// walked entry produced, so an entry excluded by an ignore rule at any
/// ancestor level, which the walk therefore never yields, is never uploaded.
pub proof fn lemma_uploads_only_walked(
    container: Seq<char>,
    entries: Seq<SyncEntry>,
    actions: Seq<SyncAction>,
)
    requires
        actions.len() == entries.len(),
        forall|i: int| 0 <= i < entries.len() ==> action_matches(container, entries[i], #[trigger] actions[i]),
    ensures
        forall|i: int|
            0 <= i < actions.len() && (#[trigger] actions[i]) is Upload ==> exists|j: int|
                0 <= j < entries.len() && (#[trigger] entries[j]).local_path@
                    == actions[i].source(),
{
    assert forall|i: int|
        0 <= i < actions.len() && (#[trigger] actions[i]) is Upload implies exists|j: int|
        0 <= j < entries.len() && (#[trigger] entries[j]).local_path@ == actions[i].source() by {
        assert(action_matches(container, entries[i], actions[i]));
        assert(entries[i].local_path@ == actions[i].source());
    }
}

} // verus!
