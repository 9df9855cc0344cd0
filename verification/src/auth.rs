//! The local password gate: setting the password up, unlocking with it,
//! locking again.

use vstd::prelude::*;
use vstd::string::*;
use crate::digest::{generate_salt, hash_password, hashed_password, SALT_BYTES};
use crate::failure::{ErrorKind, Failure, Step};

verus! {

/// Fewest bytes a password may have.
pub const MIN_PASSWORD_BYTES: usize = 8;

/// Whether the user has unlocked the application.
#[derive(Debug, Clone, Copy, PartialEq, Eq, Structural)]
pub struct AppState {
    pub authenticated: bool,
}

/// The stored password hash and its salt.
#[derive(Debug, Clone, PartialEq, Eq)]
pub struct AuthConfig {
    pub password_hash: String,
    pub salt: String,
}

impl AuthConfig {
    /// The configuration accepts the password: hashing it under the stored
    /// salt gives the stored hash.
    pub open spec fn accepts(self, password: Seq<char>) -> bool {
        self.password_hash@ == hashed_password(password, self.salt@)
    }
}

/// Number of bytes of a text in UTF-8.
pub open spec fn byte_len(text: Seq<char>) -> nat {
    vstd::utf8::encode_utf8(text).len()
}

/// Makes the configuration for a new password. A password of fewer than
/// `MIN_PASSWORD_BYTES` bytes is refused, and so is a second initialization.
/// The caller stores the configuration and then calls `unlock`.
pub fn initialize_app(password: &str, initialized: bool) -> (r: Result<AuthConfig, Failure>)
    ensures
        byte_len(password@) < MIN_PASSWORD_BYTES ==> (r matches Err(f) && f.is(
            ErrorKind::InvalidInput,
            Step::Password,
            None,
            Seq::empty(),
        )),
        byte_len(password@) >= MIN_PASSWORD_BYTES && initialized ==> (r matches Err(f) && f.is(
            ErrorKind::InvalidInput,
            Step::Initialization,
            None,
            Seq::empty(),
        )),
        byte_len(password@) >= MIN_PASSWORD_BYTES && !initialized ==> (r matches Ok(config)
            && config.accepts(password@) && config.salt@.len() == 2 * SALT_BYTES),
{
    if password.as_bytes().len() < MIN_PASSWORD_BYTES {
        return Err(Failure::rule(ErrorKind::InvalidInput, Step::Password));
    }
    if initialized {
        return Err(Failure::rule(ErrorKind::InvalidInput, Step::Initialization));
    }
    let salt = generate_salt();
    let password_hash = hash_password(password, salt.as_str());
    Ok(AuthConfig { password_hash, salt })
}

/// Checks a password against the stored configuration.
pub fn verify_password(password: &str, config: &AuthConfig) -> (ok: bool)
    ensures
        ok == config.accepts(password@),
{
    let hash = hash_password(password, config.salt.as_str());
    hash == config.password_hash
}

/// Unlocks the application with a password. Without a stored configuration
/// the application is not initialized; a wrong password leaves the state as
/// it was.
pub fn unlock_app(password: &str, config: Option<&AuthConfig>, state: &mut AppState) -> (r: Result<
    (),
    Failure,
>)
    ensures
        match config {
            None => *final(state) == *old(state) && (r matches Err(f) && f.is(
                ErrorKind::NotFound,
                Step::Initialization,
                None,
                Seq::empty(),
            )),
            Some(stored) => if stored.accepts(password@) {
                r is Ok && final(state).authenticated
            } else {
                *final(state) == *old(state) && (r matches Err(f) && f.is(
                    ErrorKind::AuthenticationRequired,
                    Step::Password,
                    None,
                    Seq::empty(),
                ))
            },
        },
{
    match config {
        None => Err(Failure::rule(ErrorKind::NotFound, Step::Initialization)),
        Some(stored) => {
            if verify_password(password, stored) {
                state.authenticated = true;
                Ok(())
            } else {
                Err(Failure::rule(ErrorKind::AuthenticationRequired, Step::Password))
            }
        },
    }
}

/// Marks the application as unlocked, once a new configuration is stored.
pub fn unlock(state: &mut AppState)
    ensures
        final(state).authenticated,
{
    state.authenticated = true;
}

/// Locks the application.
pub fn lock_app(state: &mut AppState)
    ensures
        !final(state).authenticated,
{
    state.authenticated = false;
}

/// Whether the application is unlocked.
pub fn is_authenticated(state: &AppState) -> (r: bool)
    ensures
        r == state.authenticated,
{
    state.authenticated
}

/// The vault files that a reset removes besides the configuration.
pub open spec fn vault_files() -> Seq<Seq<char>> {
    seq!["vault.stronghold"@, "client.stronghold"@, "stronghold.vault"@, "salt.txt"@]
}

/// Names of strings.
pub open spec fn texts(names: Seq<String>) -> Seq<Seq<char>> {
    Seq::new(names.len(), |i: int| names[i]@)
}

/// Resets the application: it is locked at once, and the caller removes the
/// configuration and the vault files that are named.
pub fn reset_app(state: &mut AppState) -> (files: Vec<String>)
    ensures
        !final(state).authenticated,
        texts(files@) == vault_files(),
{
    state.authenticated = false;
    let mut files: Vec<String> = Vec::new();
    files.push(String::from_str("vault.stronghold"));
    files.push(String::from_str("client.stronghold"));
    files.push(String::from_str("stronghold.vault"));
    files.push(String::from_str("salt.txt"));
    assert(texts(files@) =~= vault_files());
    files
}

} // verus!
