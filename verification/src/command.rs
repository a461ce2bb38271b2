//! Environment-entry shape (`KEY:VALUE`) and the composite command string
//! submitted to the remote shell.

use vstd::prelude::*;

verus! {

/// How many `:` characters occur in `s`.
pub open spec fn colon_count(s: Seq<char>) -> nat
    decreases s.len(),
{
    if s.len() == 0 {
        0
    } else {
        colon_count(s.drop_last()) + (if s.last() == ':' {
            1nat
        } else {
            0nat
        })
    }
}

/// An environment entry is well formed when it holds exactly one `:`,
/// neither first nor last: a non-empty key, a `:`, a non-empty value.
pub open spec fn valid_env_entry(s: Seq<char>) -> bool {
    &&& colon_count(s) == 1
    &&& s.len() > 0
    &&& s[0] != ':'
    &&& s[s.len() - 1] != ':'
}

/// Index of the first `:` in `s` (`s.len()` when there is none).
pub open spec fn first_colon(s: Seq<char>) -> int
    decreases s.len(),
{
    if s.len() == 0 {
        0
    } else if s[0] == ':' {
        0
    } else {
        1 + first_colon(s.subrange(1, s.len() as int))
    }
}

/// The key of an entry: everything before the first `:`.
pub open spec fn env_key(s: Seq<char>) -> Seq<char> {
    s.subrange(0, first_colon(s))
}

/// The value of an entry: everything after the first `:`.
pub open spec fn env_value(s: Seq<char>) -> Seq<char> {
    s.subrange(first_colon(s) + 1, s.len() as int)
}

proof fn lemma_first_colon_at(s: Seq<char>, i: int)
    requires
        0 <= i < s.len(),
        s[i] == ':',
        forall|j: int| 0 <= j < i ==> s[j] != ':',
    ensures
        first_colon(s) == i,
    decreases i,
{
    if i == 0 {
    } else {
        let t = s.subrange(1, s.len() as int);
        assert(t[i - 1] == ':');
        assert(forall|j: int| 0 <= j < i - 1 ==> t[j] == s[j + 1] && t[j] != ':');
        lemma_first_colon_at(t, i - 1);
    }
}

proof fn lemma_no_colon_count(s: Seq<char>)
    requires
        forall|j: int| 0 <= j < s.len() ==> s[j] != ':',
    ensures
        colon_count(s) == 0,
    decreases s.len(),
{
    if s.len() > 0 {
        lemma_no_colon_count(s.drop_last());
    }
}

/// Views of a sequence of owned entries.
pub open spec fn entry_views(v: Seq<String>) -> Seq<Seq<char>> {
    v.map_values(|s: String| s@)
}

/// The shell-level fallback assignment for one entry: `export KEY=VALUE && `.
pub open spec fn export_clause(entry: Seq<char>) -> Seq<char> {
    "export "@ + env_key(entry) + "="@ + env_value(entry) + " && "@
}

/// The prefix accumulated over the entries, in input order: an `export`
/// clause for each entry whose native per-channel injection failed, nothing
/// for one whose native injection succeeded.
pub open spec fn env_prefix(entries: Seq<Seq<char>>, native_ok: Seq<bool>) -> Seq<char>
    decreases entries.len(),
{
    if entries.len() == 0 {
        Seq::empty()
    } else {
        env_prefix(entries.drop_last(), native_ok.drop_last()) + (if native_ok[entries.len()
            - 1] {
            Seq::<char>::empty()
        } else {
            export_clause(entries.last())
        })
    }
}

/// The directory change into the workspace container: `cd <root>/container && `.
pub open spec fn cd_clause(root: Seq<char>) -> Seq<char> {
    "cd "@ + root + "/container && "@
}

/// The one composite string submitted to the remote shell: fallback exports,
/// then the directory change, then the command itself.
pub open spec fn composed_command(
    entries: Seq<Seq<char>>,
    native_ok: Seq<bool>,
    root: Seq<char>,
    cmd: Seq<char>,
) -> Seq<char> {
    env_prefix(entries, native_ok) + cd_clause(root) + cmd
}

/// Concatenation of the export clauses of every entry, in input order.
pub open spec fn all_exports(entries: Seq<Seq<char>>) -> Seq<char>
    decreases entries.len(),
{
    if entries.len() == 0 {
        Seq::empty()
    } else {
        all_exports(entries.drop_last()) + export_clause(entries.last())
    }
}

proof fn lemma_env_prefix_all_failed(entries: Seq<Seq<char>>, native_ok: Seq<bool>)
    requires
        native_ok.len() == entries.len(),
        forall|i: int| 0 <= i < native_ok.len() ==> !native_ok[i],
    ensures
        env_prefix(entries, native_ok) == all_exports(entries),
    decreases entries.len(),
{
    if entries.len() > 0 {
        lemma_env_prefix_all_failed(entries.drop_last(), native_ok.drop_last());
    }
}

/// Law: when native per-variable injection fails for every pair, the
/// submitted command is byte for byte the `export KEY=VALUE && ` clauses in
/// input order, then the directory change, then the original command.
pub proof fn lemma_fallback_composition(
    entries: Seq<Seq<char>>,
    native_ok: Seq<bool>,
    root: Seq<char>,
    cmd: Seq<char>,
)
    requires
        native_ok.len() == entries.len(),
        forall|i: int| 0 <= i < native_ok.len() ==> !native_ok[i],
    ensures
        composed_command(entries, native_ok, root, cmd) == all_exports(entries) + cd_clause(root)
            + cmd,
{
    lemma_env_prefix_all_failed(entries, native_ok);
}

/// Builds the composite command: for each entry whose native injection
/// failed (`native_ok` false) an `export` clause, then `cd <root>/container && `,
/// then the command itself.
pub fn compose_command(envs: &Vec<String>, native_ok: &Vec<bool>, root: &str, cmd: &str) -> (r:
    String)
    requires
        envs@.len() == native_ok@.len(),
        forall|i: int| 0 <= i < envs@.len() ==> valid_env_entry(#[trigger] envs@[i]@),
    ensures
        r@ == composed_command(entry_views(envs@), native_ok@, root@, cmd@),
{
    let ghost entries = entry_views(envs@);
    let mut acc = String::new();
    let n = envs.len();
    let mut i: usize = 0;
    while i < n
        invariant
            0 <= i <= n,
            n == envs@.len(),
            native_ok@.len() == n,
            entries == entry_views(envs@),
            forall|k: int| 0 <= k < envs@.len() ==> valid_env_entry(#[trigger] envs@[k]@),
            acc@ == env_prefix(entries.subrange(0, i as int), native_ok@.subrange(0, i as int)),
        decreases n - i,
    {
        proof {
            assert(entries[i as int] == envs@[i as int]@);
        }
        if !native_ok[i] {
            let kv = split_env(&envs[i]);
            acc.append("export ");
            acc.append(kv.0.as_str());
            acc.append("=");
            acc.append(kv.1.as_str());
            acc.append(" && ");
        }
        proof {
            let e1 = entries.subrange(0, i as int + 1);
            let f1 = native_ok@.subrange(0, i as int + 1);
            assert(e1.drop_last() =~= entries.subrange(0, i as int));
            assert(f1.drop_last() =~= native_ok@.subrange(0, i as int));
            assert(e1.last() == entries[i as int]);
            assert(f1[e1.len() - 1] == native_ok@[i as int]);
            assert(acc@ =~= env_prefix(e1, f1));
        }
        i += 1;
    }
    proof {
        assert(entries.subrange(0, n as int) =~= entries);
        assert(native_ok@.subrange(0, n as int) =~= native_ok@);
    }
    acc.append("cd ");
    acc.append(root);
    acc.append("/container && ");
    acc.append(cmd);
    proof {
        assert(acc@ =~= composed_command(entries, native_ok@, root@, cmd@));
    }
    acc
}

/// Splits a well-formed entry at its first `:` into key and value.
pub fn split_env(entry: &str) -> (r: (String, String))
    requires
        valid_env_entry(entry@),
    ensures
        r.0@ == env_key(entry@),
        r.1@ == env_value(entry@),
{
    let n = entry.unicode_len();
    let mut i: usize = 0;
    while i < n && entry.get_char(i) != ':'
        invariant
            0 <= i <= n,
            n == entry@.len(),
            valid_env_entry(entry@),
            forall|j: int| 0 <= j < i ==> entry@[j] != ':',
        decreases n - i,
    {
        i += 1;
    }
    proof {
        if i == n {
            lemma_no_colon_count(entry@);
            assert(false);
        }
        lemma_first_colon_at(entry@, i as int);
    }
    let key = entry.substring_char(0, i);
    let value = entry.substring_char(i + 1, n);
    (key.to_owned(), value.to_owned())
}

} // verus!
