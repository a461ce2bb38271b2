//! Validation of command-line environment entries and the configuration
//! file's location and default contents.

use vstd::prelude::*;
use crate::command::{colon_count, valid_env_entry};
use crate::ssh::{Auth, AuthKey};

verus! {

/// The credential variant named by the configuration file.
pub enum AuthType {
    Password,
    Key,
    Agent,
}

/// Why a configuration could not be resolved into a credential on its own.
pub enum ResolveError {
    /// Password authentication was chosen but no password is on file: the
    /// caller must prompt for one and resolve again.
    PasswordMissing,
    /// Key authentication was chosen but no private key path is on file.
    PrivateKeyMissing,
}

/// Resolves the configuration's authentication section into a credential:
/// a password on file becomes a password credential (a missing one asks the
/// caller to prompt), a private key path becomes a key-pair credential with
/// the optional public key and passphrase (a missing path is an error), and
/// the agent choice needs no payload.
pub fn resolve_auth(
    auth_type: &AuthType,
    password: Option<String>,
    private_key_path: Option<String>,
    public_key_path: Option<String>,
    passphrase: Option<String>,
) -> (r: Result<Auth, ResolveError>)
    ensures
        match auth_type {
            AuthType::Password => match password {
                Some(p) => r == Ok::<Auth, ResolveError>(Auth::Password(p)),
                None => r == Err::<Auth, ResolveError>(ResolveError::PasswordMissing),
            },
            AuthType::Key => match private_key_path {
                Some(k) => r == Ok::<Auth, ResolveError>(
                    Auth::AuthKey(
                        (AuthKey { pubkey: public_key_path, privekey: k, passphrase }),
                    ),
                ),
                None => r == Err::<Auth, ResolveError>(ResolveError::PrivateKeyMissing),
            },
            AuthType::Agent => r == Ok::<Auth, ResolveError>(Auth::Agent),
        },
{
    match auth_type {
        AuthType::Password => match password {
            Some(p) => Ok(Auth::Password(p)),
            None => Err(ResolveError::PasswordMissing),
        },
        AuthType::Key => match private_key_path {
            Some(k) => Ok(
                Auth::AuthKey(AuthKey { pubkey: public_key_path, privekey: k, passphrase }),
            ),
            None => Err(ResolveError::PrivateKeyMissing),
        },
        AuthType::Agent => Ok(Auth::Agent),
    }
}

/// The directory that holds the configuration file, below the given home
/// directory.
pub fn config_dir_from_home(home: &str) -> (r: String)
    ensures
        r@ == home@ + "/.config/cserun"@,
{
    let mut r = home.to_owned();
    r.append("/.config/cserun");
    r
}

/// The configuration file's path below the given home directory.
pub fn config_path_from_home(home: &str) -> (r: String)
    ensures
        r@ == home@ + "/.config/cserun/config.toml"@,
{
    let mut r = home.to_owned();
    r.append("/.config/cserun/config.toml");
    r
}

/// The template written to a configuration file that does not exist yet.
pub open spec fn default_config_text() -> Seq<char> {
    "# cserun configuration\n\n[server]\naddr = \"example.com\"\nport = 22\nuser = \"username\"\n\n[auth]\n# one of \"password\", \"key\" or \"agent\"\ntype = \"password\"\n# password = \"...\"          # omit it to be prompted\n# private_key_path = \"...\"  # for type = \"key\"\n# public_key_path = \"...\"\n# passphrase = \"...\"\n"@
}

/// The contents a fresh configuration file is seeded with.
pub fn default_config_contents() -> (r: &'static str)
    ensures
        r@ == default_config_text(),
{
    "# cserun configuration\n\n[server]\naddr = \"example.com\"\nport = 22\nuser = \"username\"\n\n[auth]\n# one of \"password\", \"key\" or \"agent\"\ntype = \"password\"\n# password = \"...\"          # omit it to be prompted\n# private_key_path = \"...\"  # for type = \"key\"\n# public_key_path = \"...\"\n# passphrase = \"...\"\n"
}

/// Accepts an environment entry exactly when it has the `KEY:VALUE` shape:
/// one `:`, neither at the start nor at the end.
pub fn parse_env(s: &str) -> (r: Result<String, String>)
    ensures
        match r {
            Ok(v) => valid_env_entry(s@) && v@ == s@,
            Err(m) => !valid_env_entry(s@) && m@
                == "Environment variable must be in KEY:VALUE format"@,
        },
{
    let n = s.unicode_len();
    let mut i: usize = 0;
    let mut colons: usize = 0;
    while i < n
        invariant
            0 <= i <= n,
            n == s@.len(),
            colons == colon_count(s@.subrange(0, i as int)),
            colons <= i,
        decreases n - i,
    {
        proof {
            assert(s@.subrange(0, i as int + 1).drop_last() =~= s@.subrange(0, i as int));
            assert(s@.subrange(0, i as int + 1).last() == s@[i as int]);
        }
        if s.get_char(i) == ':' {
            colons += 1;
        }
        i += 1;
    }
    proof {
        assert(s@.subrange(0, n as int) =~= s@);
    }
    if colons == 1 && s.get_char(0) != ':' && s.get_char(n - 1) != ':' {
        Ok(s.to_owned())
    } else {
        Err("Environment variable must be in KEY:VALUE format".to_owned())
    }
}

} // verus!
