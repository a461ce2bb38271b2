use cserun::parse::{
    config_dir_from_home, config_path_from_home, default_config_contents, parse_env,
    resolve_auth, AuthType, ResolveError,
};
use cserun::ssh::Auth;

#[test]
fn parse_env_accepts_key_value() {
    assert_eq!(parse_env("FOO:bar"), Ok("FOO:bar".to_string()));
}

#[test]
fn parse_env_rejects_missing_colon() {
    assert_eq!(
        parse_env("FOObar"),
        Err("Environment variable must be in KEY:VALUE format".to_string())
    );
}

#[test]
fn parse_env_rejects_two_colons() {
    assert!(parse_env("A:B:C").is_err());
}

#[test]
fn parse_env_rejects_leading_colon() {
    assert!(parse_env(":VALUE").is_err());
}

#[test]
fn parse_env_rejects_trailing_colon() {
    assert!(parse_env("KEY:").is_err());
}

#[test]
fn parse_env_rejects_empty() {
    assert!(parse_env("").is_err());
}

#[test]
fn default_config_is_a_filled_template() {
    let text = default_config_contents();
    assert!(text.contains("[server]"));
    assert!(text.contains("[auth]"));
    assert!(text.contains("type = \"password\""));
}

#[test]
fn config_paths_join_below_home() {
    assert_eq!(config_dir_from_home("/home/me"), "/home/me/.config/cserun");
    assert_eq!(
        config_path_from_home("/home/me"),
        "/home/me/.config/cserun/config.toml"
    );
}

#[test]
fn resolve_password_on_file() {
    let r = resolve_auth(&AuthType::Password, Some("s3cret".to_string()), None, None, None);
    match r {
        Ok(Auth::Password(p)) => assert_eq!(p, "s3cret"),
        _ => panic!("expected a password credential"),
    }
}

#[test]
fn resolve_password_missing_asks_for_prompt() {
    let r = resolve_auth(&AuthType::Password, None, None, None, None);
    assert!(matches!(r, Err(ResolveError::PasswordMissing)));
}

#[test]
fn resolve_key_with_paths() {
    let r = resolve_auth(
        &AuthType::Key,
        None,
        Some("/home/me/.ssh/id_ed25519".to_string()),
        Some("/home/me/.ssh/id_ed25519.pub".to_string()),
        Some("phrase".to_string()),
    );
    match r {
        Ok(Auth::AuthKey(k)) => {
            assert_eq!(k.privekey, "/home/me/.ssh/id_ed25519");
            assert_eq!(k.pubkey.as_deref(), Some("/home/me/.ssh/id_ed25519.pub"));
            assert_eq!(k.passphrase.as_deref(), Some("phrase"));
        }
        _ => panic!("expected a key credential"),
    }
}

#[test]
fn resolve_key_without_private_path_fails() {
    let r = resolve_auth(&AuthType::Key, None, None, None, None);
    assert!(matches!(r, Err(ResolveError::PrivateKeyMissing)));
}

#[test]
fn resolve_agent_needs_no_payload() {
    let r = resolve_auth(&AuthType::Agent, None, None, None, None);
    assert!(matches!(r, Ok(Auth::Agent)));
}
