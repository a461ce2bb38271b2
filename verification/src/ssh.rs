//! The resolved request handed to one run, the credential variants, and the
//! authentication decisions that do not touch the transport.

use vstd::prelude::*;

verus! {

/// Key-pair credential: private key path, optional matching public key path,
/// optional passphrase.
pub struct AuthKey {
    pub pubkey: Option<String>,
    pub privekey: String,
    pub passphrase: Option<String>,
}

/// Exactly one credential variant is active for a run.
pub enum Auth {
    Password(String),
    AuthKey(AuthKey),
    Agent,
}

/// A fully resolved execution request: where to connect, as whom, with which
/// credential, what to run, which environment entries to inject, and whether
/// to skip the upload of the local tree.
pub struct Config {
    pub server_addr: String,
    pub username: String,
    pub auth: Auth,
    pub command: String,
    pub envs: Vec<String>,
    pub no_sync: bool,
}

/// Authentication failures, one distinguishable kind per cause, so a caller
/// can tell a bad credential from an absent or empty agent.
pub enum AuthError {
    /// The server rejected the password.
    PasswordRejected,
    /// The server rejected the key pair.
    KeyRejected,
    /// The local agent process could not be reached.
    AgentUnavailable,
    /// The agent answered but holds no identities.
    NoIdentities,
    /// The agent holds identities but agent authentication failed.
    AgentRejected,
}

impl AuthError {
    /// One line per cause, no two alike, so the operator can tell a bad
    /// credential from an absent agent and from an empty one.
    pub fn describe(&self) -> (r: String)
        ensures
            r@ == (match self {
                AuthError::PasswordRejected => "the server rejected the password"@,
                AuthError::KeyRejected => "the server rejected the key pair"@,
                AuthError::AgentUnavailable => "the ssh-agent could not be reached"@,
                AuthError::NoIdentities => "No identities found in the ssh-agent"@,
                AuthError::AgentRejected => "the ssh-agent rejected the authentication"@,
            }),
    {
        match self {
            AuthError::PasswordRejected => "the server rejected the password".to_owned(),
            AuthError::KeyRejected => "the server rejected the key pair".to_owned(),
            AuthError::AgentUnavailable => "the ssh-agent could not be reached".to_owned(),
            AuthError::NoIdentities => "No identities found in the ssh-agent".to_owned(),
            AuthError::AgentRejected => "the ssh-agent rejected the authentication".to_owned(),
        }
    }
}

/// Law: with zero identities the agent path fails with the distinguishable
/// `NoIdentities` kind before any authentication attempt; with at least one
/// identity the run may proceed to agent authentication.
pub fn agent_identity_check(identity_count: usize) -> (r: Result<(), AuthError>)
    ensures
        match r {
            Ok(_) => identity_count > 0,
            Err(e) => identity_count == 0 && e == AuthError::NoIdentities,
        },
{
    if identity_count == 0 {
        Err(AuthError::NoIdentities)
    } else {
        Ok(())
    }
}

/// One decimal digit as a character.
pub open spec fn digit_char(d: nat) -> char {
    if d == 0 {
        '0'
    } else if d == 1 {
        '1'
    } else if d == 2 {
        '2'
    } else if d == 3 {
        '3'
    } else if d == 4 {
        '4'
    } else if d == 5 {
        '5'
    } else if d == 6 {
        '6'
    } else if d == 7 {
        '7'
    } else if d == 8 {
        '8'
    } else {
        '9'
    }
}

/// The decimal rendering of `n`, most significant digit first, no leading
/// zeros (a single `0` for zero).
pub open spec fn dec_str(n: nat) -> Seq<char>
    decreases n,
{
    if n < 10 {
        seq![digit_char(n)]
    } else {
        dec_str(n / 10).push(digit_char(n % 10))
    }
}

fn digit_str(d: u16) -> (s: &'static str)
    requires
        d < 10,
    ensures
        s@ == seq![digit_char(d as nat)],
{
    proof {
        reveal_strlit("0");
        reveal_strlit("1");
        reveal_strlit("2");
        reveal_strlit("3");
        reveal_strlit("4");
        reveal_strlit("5");
        reveal_strlit("6");
        reveal_strlit("7");
        reveal_strlit("8");
        reveal_strlit("9");
    }
    let s = if d == 0 {
        "0"
    } else if d == 1 {
        "1"
    } else if d == 2 {
        "2"
    } else if d == 3 {
        "3"
    } else if d == 4 {
        "4"
    } else if d == 5 {
        "5"
    } else if d == 6 {
        "6"
    } else if d == 7 {
        "7"
    } else if d == 8 {
        "8"
    } else {
        "9"
    };
    proof {
        assert(s@ =~= seq![digit_char(d as nat)]);
    }
    s
}

/// Renders a port number in decimal.
pub fn u16_to_decimal(n: u16) -> (r: String)
    ensures
        r@ == dec_str(n as nat),
    decreases n,
{
    if n < 10 {
        digit_str(n).to_owned()
    } else {
        let mut r = u16_to_decimal(n / 10);
        r.append(digit_str(n % 10));
        proof {
            assert(r@ =~= dec_str(n as nat));
        }
        r
    }
}

/// Joins a host and a port into the `host:port` address the transport dials.
pub fn server_address(addr: &str, port: u16) -> (r: String)
    ensures
        r@ == addr@ + ":"@ + dec_str(port as nat),
{
    let mut r = addr.to_owned();
    r.append(":");
    let p = u16_to_decimal(port);
    r.append(p.as_str());
    r
}

/// Assembles the request around a credential, with the command, entries and
/// sync flag still at their initial values, as the collaborators fill them
/// in afterwards.
pub fn make_config(server_addr: String, username: String, auth: Auth) -> (c: Config)
    ensures
        c.server_addr == server_addr,
        c.username == username,
        c.auth == auth,
        c.command@ == Seq::<char>::empty(),
        c.envs@ == Seq::<String>::empty(),
        c.no_sync == false,
{
    Config {
        server_addr,
        username,
        auth,
        command: String::new(),
        envs: Vec::new(),
        no_sync: false,
    }
}

} // verus!
