//! The local session: two named secrets. Holding both means that there is a
//! session; whether the tokens are still valid is not looked at here.

use vstd::prelude::*;
use vstd::string::*;
use crate::failure::{ErrorKind, Failure, Step};
use crate::records::{DatabaseConfig, TokensRequest, TokensResponse};
use crate::wire::{pairs_view, Pair};

verus! {

/// Name under which the access token is stored.
pub open spec fn access_key() -> Seq<char> {
    "sb-access-token"@
}

/// Name under which the refresh token is stored.
pub open spec fn refresh_key() -> Seq<char> {
    "sb-refresh-token"@
}

/// Name under which the backend's URL is stored.
pub open spec fn url_key() -> Seq<char> {
    "database_url"@
}

/// Name under which the backend's API key is stored.
pub open spec fn api_key() -> Seq<char> {
    "anon_key"@
}

/// The names of the two session entries: access token, refresh token.
pub fn session_keys() -> (r: (String, String))
    ensures
        r.0@ == access_key(),
        r.1@ == refresh_key(),
{
    (String::from_str("sb-access-token"), String::from_str("sb-refresh-token"))
}

/// The names of the two connection entries: URL, API key.
pub fn connection_keys() -> (r: (String, String))
    ensures
        r.0@ == url_key(),
        r.1@ == api_key(),
{
    (String::from_str("database_url"), String::from_str("anon_key"))
}

/// Whether there is a session: both tokens are stored.
pub fn check_session(has_access: bool, has_refresh: bool) -> (r: bool)
    ensures
        r == (has_access && has_refresh),
{
    has_access && has_refresh
}

/// The entries to store for a pair of tokens.
pub fn store_tokens(tokens: TokensRequest) -> (entries: Vec<Pair>)
    ensures
        pairs_view(entries@) == seq![
            (access_key(), tokens.access_token@),
            (refresh_key(), tokens.refresh_token@),
        ],
{
    let mut entries: Vec<Pair> = Vec::new();
    entries.push(Pair { name: String::from_str("sb-access-token"), value: tokens.access_token });
    entries.push(Pair { name: String::from_str("sb-refresh-token"), value: tokens.refresh_token });
    assert(pairs_view(entries@) =~= seq![
        (access_key(), tokens.access_token@),
        (refresh_key(), tokens.refresh_token@),
    ]);
    entries
}

/// The entries to store for refreshed tokens: the same as for new ones.
pub fn update_tokens(tokens: TokensRequest) -> (entries: Vec<Pair>)
    ensures
        pairs_view(entries@) == seq![
            (access_key(), tokens.access_token@),
            (refresh_key(), tokens.refresh_token@),
        ],
{
    store_tokens(tokens)
}

/// The stored tokens, or which one is missing: the access token is looked at
/// first.
pub fn get_tokens(access_token: Option<String>, refresh_token: Option<String>) -> (r: Result<
    TokensResponse,
    Failure,
>)
    ensures
        match (access_token, refresh_token) {
            (Some(a), Some(b)) => r == Ok::<TokensResponse, Failure>(
                TokensResponse { access_token: a, refresh_token: b },
            ),
            (None, _) => r matches Err(f) && f.is(
                ErrorKind::AuthenticationRequired,
                Step::Session,
                None,
                access_key(),
            ),
            (Some(_), None) => r matches Err(f) && f.is(
                ErrorKind::AuthenticationRequired,
                Step::Session,
                None,
                refresh_key(),
            ),
        },
{
    match access_token {
        None => Err(
            Failure::reported(
                ErrorKind::AuthenticationRequired,
                Step::Session,
                String::from_str("sb-access-token"),
            ),
        ),
        Some(a) => match refresh_token {
            None => Err(
                Failure::reported(
                    ErrorKind::AuthenticationRequired,
                    Step::Session,
                    String::from_str("sb-refresh-token"),
                ),
            ),
            Some(b) => Ok(TokensResponse { access_token: a, refresh_token: b }),
        },
    }
}

/// The names of the entries that a logout deletes.
pub fn logout() -> (names: Vec<String>)
    ensures
        names@.len() == 2,
        names@[0]@ == access_key(),
        names@[1]@ == refresh_key(),
{
    let mut names: Vec<String> = Vec::new();
    names.push(String::from_str("sb-access-token"));
    names.push(String::from_str("sb-refresh-token"));
    names
}

/// The entries to store for a backend connection. Without an access token
/// nothing is stored; the token itself belongs to the session, not here.
pub fn init_database(database_url: String, access_token: &str, anon_key: String) -> (r: Result<
    Vec<Pair>,
    Failure,
>)
    ensures
        access_token@.len() == 0 ==> (r matches Err(f) && f.is(
            ErrorKind::AuthenticationRequired,
            Step::Session,
            None,
            Seq::empty(),
        )),
        access_token@.len() > 0 ==> (r matches Ok(entries) && pairs_view(entries@) == seq![
            (url_key(), database_url@),
            (api_key(), anon_key@),
        ]),
{
    if access_token.is_empty() {
        return Err(Failure::rule(ErrorKind::AuthenticationRequired, Step::Session));
    }
    let mut entries: Vec<Pair> = Vec::new();
    entries.push(Pair { name: String::from_str("database_url"), value: database_url });
    entries.push(Pair { name: String::from_str("anon_key"), value: anon_key });
    assert(pairs_view(entries@) =~= seq![(url_key(), database_url@), (api_key(), anon_key@)]);
    Ok(entries)
}

/// The connection to the backend, from what is stored: the URL is looked at
/// first, then the session's access token, then the API key.
pub fn get_authenticated_db(
    database_url: Option<String>,
    access_token: Option<String>,
    anon_key: Option<String>,
) -> (r: Result<DatabaseConfig, Failure>)
    ensures
        match (database_url, access_token, anon_key) {
            (Some(url), Some(token), Some(key)) => r == Ok::<DatabaseConfig, Failure>(
                DatabaseConfig { database_url: url, access_token: token, anon_key: key },
            ),
            (None, _, _) => r matches Err(f) && f.is(
                ErrorKind::ConfigurationError,
                Step::Settings,
                None,
                Seq::empty(),
            ),
            (Some(_), None, _) => r matches Err(f) && f.is(
                ErrorKind::AuthenticationRequired,
                Step::Session,
                None,
                Seq::empty(),
            ),
            (Some(_), Some(_), None) => r matches Err(f) && f.is(
                ErrorKind::ConfigurationError,
                Step::Credentials,
                None,
                Seq::empty(),
            ),
        },
{
    match database_url {
        None => Err(Failure::rule(ErrorKind::ConfigurationError, Step::Settings)),
        Some(url) => match access_token {
            None => Err(Failure::rule(ErrorKind::AuthenticationRequired, Step::Session)),
            Some(token) => match anon_key {
                None => Err(Failure::rule(ErrorKind::ConfigurationError, Step::Credentials)),
                Some(key) => Ok(
                    DatabaseConfig { database_url: url, access_token: token, anon_key: key },
                ),
            },
        },
    }
}

/// How far the backend connection is set up.
#[derive(Debug, Clone, Copy, PartialEq, Eq, Structural)]
pub enum Readiness {
    NotConfigured,
    AuthenticationRequired,
    Ready,
}

impl Readiness {
    /// The name under which the state is reported.
    pub open spec fn label(self) -> Seq<char> {
        match self {
            Readiness::NotConfigured => "not_configured"@,
            Readiness::AuthenticationRequired => "authentication_required"@,
            Readiness::Ready => "ready"@,
        }
    }

    /// Computes `label`.
    pub fn name(self) -> (r: String)
        ensures
            r@ == self.label(),
    {
        match self {
            Readiness::NotConfigured => String::from_str("not_configured"),
            Readiness::AuthenticationRequired => String::from_str("authentication_required"),
            Readiness::Ready => String::from_str("ready"),
        }
    }
}

/// What is known of the backend connection.
#[derive(Debug, Clone, Copy, PartialEq, Eq, Structural)]
pub struct DatabaseStatus {
    pub configured: bool,
    pub has_database_url: bool,
    pub has_session_tokens: bool,
    /// Whether there is a session; looked at only where the connection is
    /// configured.
    pub authenticated: Option<bool>,
    pub status: Readiness,
}

/// Sums up what is stored of the backend connection.
pub fn get_database_status(has_database_url: bool, has_access: bool, has_refresh: bool) -> (r:
    DatabaseStatus)
    ensures
        r.has_database_url == has_database_url,
        r.has_session_tokens == (has_access && has_refresh),
        r.configured == (has_database_url && has_access && has_refresh),
        r.configured ==> r.authenticated == Some(true) && r.status == Readiness::Ready,
        !r.configured ==> r.authenticated is None && r.status == Readiness::NotConfigured,
{
    let has_session_tokens = has_access && has_refresh;
    let configured = has_database_url && has_session_tokens;
    if configured {
        let session = check_session(has_access, has_refresh);
        DatabaseStatus {
            configured,
            has_database_url,
            has_session_tokens,
            authenticated: Some(session),
            status: if session {
                Readiness::Ready
            } else {
                Readiness::AuthenticationRequired
            },
        }
    } else {
        DatabaseStatus {
            configured,
            has_database_url,
            has_session_tokens,
            authenticated: None,
            status: Readiness::NotConfigured,
        }
    }
}

} // verus!
