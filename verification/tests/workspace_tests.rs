use cserun::ssh::{agent_identity_check, server_address, u16_to_decimal, AuthError};
use cserun::workspace::{
    command_file_path, fresh_workspace, mkdir_step, path_prefixes, workspace_paths, MkdirAction,
    StatOutcome,
};

#[test]
fn workspace_paths_hang_off_the_fixed_prefix() {
    let w = workspace_paths("2024-02-14-01-10-40-224");
    assert_eq!(w.root, ".cserun/temp/2024-02-14-01-10-40-224");
    assert_eq!(w.container, ".cserun/temp/2024-02-14-01-10-40-224/container");
    assert_eq!(
        command_file_path(&w),
        ".cserun/temp/2024-02-14-01-10-40-224/command.txt"
    );
}

#[test]
fn fresh_workspace_is_timestamped_below_the_prefix() {
    let w = fresh_workspace();
    assert!(w.root.starts_with(".cserun/temp/"));
    assert!(w.root.len() > ".cserun/temp/".len());
    assert_eq!(w.container, format!("{}/container", w.root));
}

#[test]
fn prefixes_walk_every_component() {
    let v = path_prefixes(".cserun/temp/2024");
    assert_eq!(v, vec![".cserun", ".cserun/temp", ".cserun/temp/2024"]);
}

#[test]
fn prefixes_of_a_single_component() {
    assert_eq!(path_prefixes("alone"), vec!["alone"]);
}

#[test]
fn mkdir_tolerates_existing_directories_only() {
    assert!(matches!(mkdir_step(&StatOutcome::Missing), MkdirAction::Create));
    assert!(matches!(mkdir_step(&StatOutcome::ExistsDir), MkdirAction::Skip));
    assert!(matches!(mkdir_step(&StatOutcome::ExistsOther), MkdirAction::Fail));
}

#[test]
fn agent_with_zero_identities_is_distinguishable() {
    assert!(matches!(
        agent_identity_check(0),
        Err(AuthError::NoIdentities)
    ));
    assert!(agent_identity_check(1).is_ok());
    assert!(agent_identity_check(12).is_ok());
}

#[test]
fn auth_failures_are_told_apart() {
    let kinds = [
        AuthError::PasswordRejected,
        AuthError::KeyRejected,
        AuthError::AgentUnavailable,
        AuthError::NoIdentities,
        AuthError::AgentRejected,
    ];
    let lines: Vec<String> = kinds.iter().map(|k| k.describe()).collect();
    assert_eq!(lines[3], "No identities found in the ssh-agent");
    for (i, a) in lines.iter().enumerate() {
        assert!(!a.is_empty());
        for b in &lines[i + 1..] {
            assert_ne!(a, b);
        }
    }
}

#[test]
fn ports_render_in_decimal() {
    assert_eq!(u16_to_decimal(0), "0");
    assert_eq!(u16_to_decimal(22), "22");
    assert_eq!(u16_to_decimal(65535), "65535");
}

#[test]
fn server_address_joins_host_and_port() {
    assert_eq!(server_address("cse.example.edu", 22), "cse.example.edu:22");
    assert_eq!(server_address("127.0.0.1", 2222), "127.0.0.1:2222");
}
