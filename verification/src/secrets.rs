//! The secrets service: where it is, what is asked of it, and when the
//! session with it has to be renewed.

use crate::text::{trim_quotes, trimmed};
use vstd::prelude::*;
use vstd::string::*;

verus! {

/// A session with fewer seconds than this to live is renewed before use.
pub const REFRESH_THRESHOLD: u64 = 120;

/// Where the secrets service is, unless the environment says otherwise.
pub const DEFAULT_VAULT_ADDR: &'static str = "http://vault.vault.svc:8200";

/// Where the identity token is, unless the environment says otherwise.
pub const DEFAULT_JWT_TOKEN_PATH: &'static str =
    "/var/run/secrets/kubernetes.io/serviceaccount/token";

/// The environment variable that names the secrets service.
pub const VAULT_ADDR_VARIABLE: &'static str = "VAULT_ADDR";

/// The environment variable that names the identity token's file.
pub const JWT_TOKEN_PATH_VARIABLE: &'static str = "JWT_TOKEN_PATH";

/// The mount of the login.
pub const AUTH_MOUNT: &'static str = "ocp/cf-dyn-dns-k8s";

/// The role of the login.
pub const AUTH_ROLE: &'static str = "cf-dyn-dns-secret-reader";

/// The mount of the provider's credential.
pub const SECRET_MOUNT: &'static str = "ocp/cf-dyn-dns";

/// The path of the provider's credential.
pub const SECRET_PATH: &'static str = "cf-api";

/// The field of the secret that holds the credential.
pub const SECRET_FIELD: &'static str = "key";

/// The value of a setting: what the environment gave, or else the default.
pub open spec fn setting(configured: Option<Seq<char>>, default: Seq<char>) -> Seq<char> {
    match configured {
        Some(value) => value,
        None => default,
    }
}

/// The view of a value that the environment may have given.
pub open spec fn configured_view(configured: Option<String>) -> Option<Seq<char>> {
    match configured {
        Some(value) => Some(value@),
        None => None,
    }
}

/// The address of the secrets service, given what the environment says.
pub fn vault_address(configured: Option<String>) -> (address: String)
    ensures
        address@ == setting(configured_view(configured), DEFAULT_VAULT_ADDR@),
{
    match configured {
        Some(value) => value,
        None => String::from_str(DEFAULT_VAULT_ADDR),
    }
}

/// The path of the identity token, given what the environment says.
pub fn jwt_token_path(configured: Option<String>) -> (path: String)
    ensures
        path@ == setting(configured_view(configured), DEFAULT_JWT_TOKEN_PATH@),
{
    match configured {
        Some(value) => value,
        None => String::from_str(DEFAULT_JWT_TOKEN_PATH),
    }
}

/// Whether a session with `ttl` seconds to live has to be renewed.
pub open spec fn is_stale(ttl: u64) -> bool {
    ttl < REFRESH_THRESHOLD
}

/// Whether a login is due: there is no session, or the one there is has
/// fewer than `REFRESH_THRESHOLD` seconds to live.
pub open spec fn login_due(remaining: Option<u64>) -> bool {
    match remaining {
        None => true,
        Some(ttl) => is_stale(ttl),
    }
}

/// Whether a login is due, given the remaining lifetime of the session:
/// `None` where there is no session.
pub fn needs_login(remaining: Option<u64>) -> (due: bool)
    ensures
        due == login_due(remaining),
        due <==> remaining is None || remaining->Some_0 < 120,
{
    match remaining {
        None => true,
        Some(ttl) => ttl < REFRESH_THRESHOLD,
    }
}

/// The bearer value that a secret's field holds: the field without the
/// quotation marks around it.
pub fn bearer_token(field: &str) -> (token: String)
    ensures
        token@ == trimmed(field@),
{
    trim_quotes(field)
}

/// The session with the secrets service, and the credential read through
/// it. Both are held in memory only.
#[derive(Debug, PartialEq, Eq)]
pub struct Session {
    pub token: String,
    pub credential: Option<String>,
}

/// `Session` over plain text.
pub struct SessionView {
    pub token: Seq<char>,
    pub credential: Option<Seq<char>>,
}

impl View for Session {
    type V = SessionView;

    open spec fn view(&self) -> SessionView {
        SessionView { token: self.token@, credential: configured_view(self.credential) }
    }
}

/// The view of a session that may be absent.
pub open spec fn session_view(session: Option<Session>) -> Option<SessionView> {
    match session {
        Some(s) => Some(s@),
        None => None,
    }
}

} // verus!
