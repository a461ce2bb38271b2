use cserun::sync::{
    ensure_dir_outcome, plan_entry, sync_plan, EnsureDirOutcome, EntryKind, SyncAction, SyncEntry,
};
use cserun::workspace::StatOutcome;

fn file(local: &str, rel: &str) -> SyncEntry {
    SyncEntry {
        local_path: local.to_string(),
        relative_path: rel.to_string(),
        kind: EntryKind::File,
    }
}

fn dir(local: &str, rel: &str) -> SyncEntry {
    SyncEntry {
        local_path: local.to_string(),
        relative_path: rel.to_string(),
        kind: EntryKind::Directory,
    }
}

#[test]
fn skip_sync_plans_exactly_one_empty_container() {
    let entries = vec![file("./a.txt", "a.txt"), dir("./d", "d")];
    let plan = sync_plan("root/container", &entries, true);
    assert_eq!(plan.len(), 1);
    match &plan[0] {
        SyncAction::EnsureDir(d) => assert_eq!(d, "root/container"),
        _ => panic!("skip-sync must only create the container"),
    }
}

#[test]
fn walk_root_maps_to_container_itself() {
    let a = plan_entry("root/container", &dir("./", ""));
    match a {
        SyncAction::EnsureDir(d) => assert_eq!(d, "root/container"),
        _ => panic!("the root entry is a directory"),
    }
}

#[test]
fn file_entry_uploads_verbatim_source_to_joined_dest() {
    let a = plan_entry("root/container", &file("./src/main.rs", "src/main.rs"));
    match a {
        SyncAction::Upload(src, dest) => {
            assert_eq!(src, "./src/main.rs");
            assert_eq!(dest, "root/container/src/main.rs");
        }
        _ => panic!("a file entry must be uploaded"),
    }
}

#[test]
fn plan_has_one_action_per_entry_with_matching_kinds() {
    let entries = vec![
        dir("./", ""),
        dir("./d", "d"),
        file("./d/a.txt", "d/a.txt"),
        dir("./empty", "empty"),
        file("./b.txt", "b.txt"),
    ];
    let plan = sync_plan("c", &entries, false);
    assert_eq!(plan.len(), entries.len());
    let uploads: Vec<_> = plan
        .iter()
        .filter(|a| matches!(a, SyncAction::Upload(_, _)))
        .collect();
    let dirs: Vec<_> = plan
        .iter()
        .filter(|a| matches!(a, SyncAction::EnsureDir(_)))
        .collect();
    assert_eq!(uploads.len(), 2);
    assert_eq!(dirs.len(), 3);
    match &plan[2] {
        SyncAction::Upload(src, dest) => {
            assert_eq!(src, "./d/a.txt");
            assert_eq!(dest, "c/d/a.txt");
        }
        _ => panic!("third entry is a file"),
    }
    match &plan[3] {
        SyncAction::EnsureDir(d) => assert_eq!(d, "c/empty"),
        _ => panic!("empty directories still get a remote directory"),
    }
}

#[test]
fn empty_walk_plans_nothing() {
    let entries: Vec<SyncEntry> = Vec::new();
    let plan = sync_plan("c", &entries, false);
    assert!(plan.is_empty());
}

#[test]
fn plan_holds_only_walked_sources() {
    let entries = vec![file("./kept.txt", "kept.txt")];
    let plan = sync_plan("c", &entries, false);
    for a in &plan {
        if let SyncAction::Upload(src, _) = a {
            assert!(entries.iter().any(|e| &e.local_path == src));
        }
    }
}

#[test]
fn failed_mkdir_is_swallowed_only_for_an_existing_directory() {
    assert!(matches!(
        ensure_dir_outcome(true, &StatOutcome::ExistsDir),
        EnsureDirOutcome::Created
    ));
    assert!(matches!(
        ensure_dir_outcome(false, &StatOutcome::ExistsDir),
        EnsureDirOutcome::AlreadyThere
    ));
    assert!(matches!(
        ensure_dir_outcome(false, &StatOutcome::ExistsOther),
        EnsureDirOutcome::Fatal
    ));
    assert!(matches!(
        ensure_dir_outcome(false, &StatOutcome::Missing),
        EnsureDirOutcome::Fatal
    ));
}
