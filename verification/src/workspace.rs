//! The per-run remote scratch tree: its timestamped root, the container
//! subdirectory, the audit file, and the decisions of the idempotent
//! recursive directory creation.

use vstd::prelude::*;

verus! {

/// The remote scratch tree of one run. `container` is always
/// `root + "/container"`; the root also holds the `command.txt` audit file.
pub struct RemoteWorkspace {
    pub root: String,
    pub container: String,
}

/// The fixed remote prefix (relative to the session's home directory) under
/// which every run's workspace is created.
pub open spec fn workspace_prefix() -> Seq<char> {
    ".cserun/temp/"@
}

/// A path fit for component-wise creation: non-empty, no leading, trailing
/// or doubled separator, so every component between separators is non-empty.
pub open spec fn normal_path(s: Seq<char>) -> bool {
    &&& s.len() > 0
    &&& s[0] != '/'
    &&& s[s.len() - 1] != '/'
    &&& forall|i: int| 0 <= i < s.len() - 1 ==> !(s[i] == '/' && #[trigger] s[i + 1] == '/')
}

/// Relies on chrono's `Local::now` and `DateTime::format` with the pattern
/// `%Y-%m-%d-%H-%M-%S-%3f`: the rendered local time is made of decimal
/// digits separated by `-`, so it is non-empty and holds no `/`.
#[verifier::external_body]
fn local_timestamp() -> (r: String)
    ensures
        r@.len() > 0,
        forall|i: int| 0 <= i < r@.len() ==> r@[i] != '/',
{
    chrono::Local::now().format("%Y-%m-%d-%H-%M-%S-%3f").to_string()
}

/// Builds the workspace paths for a given timestamp name: the root under the
/// fixed prefix and the container directory below it.
pub fn workspace_paths(stamp: &str) -> (w: RemoteWorkspace)
    ensures
        w.root@ == workspace_prefix() + stamp@,
        w.container@ == w.root@ + "/container"@,
        (stamp@.len() > 0 && (forall|i: int| 0 <= i < stamp@.len() ==> stamp@[i] != '/'))
            ==> normal_path(w.root@),
{
    let mut root = ".cserun/temp/".to_owned();
    root.append(stamp);
    let mut container = root.clone();
    container.append("/container");
    proof {
        reveal_strlit(".cserun/temp/");
        if stamp@.len() > 0 && (forall|i: int| 0 <= i < stamp@.len() ==> stamp@[i] != '/') {
            let s = root@;
            assert forall|i: int| 0 <= i < s.len() - 1 implies !(s[i] == '/' && #[trigger] s[i
                + 1] == '/') by {
                if i + 1 >= workspace_prefix().len() {
                    assert(s[i + 1] == stamp@[i + 1 - workspace_prefix().len()]);
                }
            }
            assert(normal_path(s));
        }
    }
    RemoteWorkspace { root, container }
}

/// Creates a fresh workspace named after the current local time with
/// sub-second precision, so that two runs do not collide.
pub fn fresh_workspace() -> (w: RemoteWorkspace)
    ensures
        w.container@ == w.root@ + "/container"@,
        w.root@.len() > workspace_prefix().len(),
        w.root@.subrange(0, workspace_prefix().len() as int) == workspace_prefix(),
        normal_path(w.root@),
{
    let stamp = local_timestamp();
    let w = workspace_paths(stamp.as_str());
    proof {
        assert(w.root@.subrange(0, workspace_prefix().len() as int) =~= workspace_prefix());
    }
    w
}

/// The audit file beside the container: `root + "/command.txt"`, holding the
/// exact command string before anything is synced or executed.
pub fn command_file_path(w: &RemoteWorkspace) -> (r: String)
    ensures
        r@ == w.root@ + "/command.txt"@,
{
    let mut r = w.root.clone();
    r.append("/command.txt");
    r
}

/// The prefixes of `s` that end right before each `/`, shortest first.
pub open spec fn prefixes_upto(s: Seq<char>, i: int) -> Seq<Seq<char>>
    decreases i,
{
    if i <= 0 {
        Seq::empty()
    } else if s[i - 1] == '/' {
        prefixes_upto(s, i - 1).push(s.subrange(0, i - 1))
    } else {
        prefixes_upto(s, i - 1)
    }
}

/// Every path the recursive directory creation visits, shortest first: one
/// prefix per separator, then the whole path.
pub open spec fn mkdir_prefixes(s: Seq<char>) -> Seq<Seq<char>> {
    prefixes_upto(s, s.len() as int).push(s)
}

/// Views of a sequence of owned paths.
pub open spec fn path_views(v: Seq<String>) -> Seq<Seq<char>> {
    v.map_values(|s: String| s@)
}

/// Lists the successive prefixes the recursive directory creation must
/// visit, shortest first, ending with the full path.
pub fn path_prefixes(path: &str) -> (v: Vec<String>)
    requires
        normal_path(path@),
    ensures
        path_views(v@) == mkdir_prefixes(path@),
{
    let n = path.unicode_len();
    let mut v: Vec<String> = Vec::new();
    let mut i: usize = 0;
    while i < n
        invariant
            0 <= i <= n,
            n == path@.len(),
            path_views(v@) == prefixes_upto(path@, i as int),
        decreases n - i,
    {
        if path.get_char(i) == '/' {
            let p = path.substring_char(0, i);
            v.push(p.to_owned());
        }
        proof {
            assert(path_views(v@) =~= prefixes_upto(path@, i as int + 1));
        }
        i += 1;
    }
    let whole = path.to_owned();
    v.push(whole);
    proof {
        assert(path_views(v@) =~= mkdir_prefixes(path@));
    }
    v
}

proof fn lemma_prefixes_upto_shape(s: Seq<char>, i: int)
    requires
        0 <= i <= s.len(),
    ensures
        forall|k: int|
            0 <= k < prefixes_upto(s, i).len() ==> (#[trigger] prefixes_upto(s, i)[k]).len() < i
                && s[prefixes_upto(s, i)[k].len() as int] == '/' && prefixes_upto(s, i)[k]
                == s.subrange(0, prefixes_upto(s, i)[k].len() as int),
        forall|k: int|
            0 <= k < prefixes_upto(s, i).len() - 1 ==> (#[trigger] prefixes_upto(s, i)[k]).len()
                < prefixes_upto(s, i)[k + 1].len(),
    decreases i,
{
    if i > 0 {
        lemma_prefixes_upto_shape(s, i - 1);
        let prev = prefixes_upto(s, i - 1);
        let cur = prefixes_upto(s, i);
        if s[i - 1] == '/' {
            assert(cur == prev.push(s.subrange(0, i - 1)));
            assert forall|k: int| 0 <= k < cur.len() implies (#[trigger] cur[k]).len() < i && s[
                cur[k].len() as int] == '/' && cur[k] == s.subrange(0, cur[k].len() as int) by {
                if k < prev.len() {
                    assert(cur[k] == prev[k]);
                } else {
                    assert(cur[k] == s.subrange(0, i - 1));
                    assert(cur[k].len() == i - 1);
                }
            }
            assert forall|k: int|
                0 <= k < cur.len() - 1 implies (#[trigger] cur[k]).len() < cur[k + 1].len() by {
                assert(cur[k] == prev[k]);
                if k + 1 < prev.len() {
                    assert(cur[k + 1] == prev[k + 1]);
                } else {
                    assert(cur[k + 1] == s.subrange(0, i - 1));
                    assert(prev[k].len() < i - 1);
                }
            }
        } else {
            assert(cur == prev);
            assert forall|k: int| 0 <= k < cur.len() implies (#[trigger] cur[k]).len() < i && s[
                cur[k].len() as int] == '/' && cur[k] == s.subrange(0, cur[k].len() as int) by {
                assert(cur[k] == prev[k]);
            }
            assert forall|k: int|
                0 <= k < cur.len() - 1 implies (#[trigger] cur[k]).len() < cur[k + 1].len() by {
                assert(cur[k] == prev[k] && cur[k + 1] == prev[k + 1]);
            }
        }
    }
}

/// Law: the recursive creation visits exactly the ancestors of the path,
/// from the root downward — every visited path is a prefix of the full one,
/// each longer than the one before, and the last is the path itself — so a
/// shared prefix that already exists is met (and tolerated) before anything
/// below it is created.
pub proof fn lemma_mkdir_walks_down(s: Seq<char>)
    ensures
        forall|k: int|
            0 <= k < mkdir_prefixes(s).len() ==> (#[trigger] mkdir_prefixes(s)[k]).len() <= s.len()
                && mkdir_prefixes(s)[k] == s.subrange(0, mkdir_prefixes(s)[k].len() as int),
        forall|k: int|
            0 <= k < mkdir_prefixes(s).len() - 1 ==> (#[trigger] mkdir_prefixes(s)[k]).len()
                < mkdir_prefixes(s)[k + 1].len(),
        mkdir_prefixes(s).last() == s,
{
    lemma_prefixes_upto_shape(s, s.len() as int);
    assert(s.subrange(0, s.len() as int) =~= s);
}

/// What the remote answered to a `stat` of one prefix.
pub enum StatOutcome {
    /// No entry exists at the path.
    Missing,
    /// An entry exists and is a directory.
    ExistsDir,
    /// An entry exists and is not a directory.
    ExistsOther,
}

/// What the idempotent creation does with one prefix.
pub enum MkdirAction {
    /// Create the directory.
    Create,
    /// Leave the existing directory alone and move on.
    Skip,
    /// Abort provisioning: the path is taken by a non-directory.
    Fail,
}

/// Decision of the idempotent recursive directory creation for one prefix:
/// a missing entry is created, an existing directory is tolerated (so shared
/// ancestors of earlier runs never fail the walk), anything else is fatal.
pub fn mkdir_step(stat: &StatOutcome) -> (a: MkdirAction)
    ensures
        a == (match stat {
            StatOutcome::Missing => MkdirAction::Create,
            StatOutcome::ExistsDir => MkdirAction::Skip,
            StatOutcome::ExistsOther => MkdirAction::Fail,
        }),
{
    match stat {
        StatOutcome::Missing => MkdirAction::Create,
        StatOutcome::ExistsDir => MkdirAction::Skip,
        StatOutcome::ExistsOther => MkdirAction::Fail,
    }
}

} // verus!
