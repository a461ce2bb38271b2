use cserun::command::{compose_command, split_env};

#[test]
fn split_env_key_value() {
    let (k, v) = split_env("FOO:bar");
    assert_eq!(k, "FOO");
    assert_eq!(v, "bar");
}

#[test]
fn split_env_splits_at_first_colon_only() {
    let (k, v) = split_env("KEY:value");
    assert_eq!(k, "KEY");
    assert_eq!(v, "value");
}

#[test]
fn compose_all_native_failed_is_exports_then_cd_then_command() {
    let envs = vec!["FOO:1".to_string(), "BAR:2".to_string()];
    let native_ok = vec![false, false];
    let r = compose_command(&envs, &native_ok, ".cserun/temp/x", "make test");
    assert_eq!(
        r,
        "export FOO=1 && export BAR=2 && cd .cserun/temp/x/container && make test"
    );
}

#[test]
fn compose_all_native_ok_has_no_exports() {
    let envs = vec!["FOO:1".to_string(), "BAR:2".to_string()];
    let native_ok = vec![true, true];
    let r = compose_command(&envs, &native_ok, ".cserun/temp/x", "ls");
    assert_eq!(r, "cd .cserun/temp/x/container && ls");
}

#[test]
fn compose_mixed_keeps_only_failed_pairs_in_order() {
    let envs = vec![
        "A:1".to_string(),
        "B:2".to_string(),
        "C:3".to_string(),
    ];
    let native_ok = vec![true, false, false];
    let r = compose_command(&envs, &native_ok, "root", "run");
    assert_eq!(r, "export B=2 && export C=3 && cd root/container && run");
}

#[test]
fn compose_no_envs_is_cd_then_command() {
    let envs: Vec<String> = Vec::new();
    let native_ok: Vec<bool> = Vec::new();
    let r = compose_command(&envs, &native_ok, "root", "echo hi");
    assert_eq!(r, "cd root/container && echo hi");
}
