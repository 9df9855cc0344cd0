//! Hashing: passwords with a salt, file content for checksums. SHA-256 is
//! `sha2`'s, the hexadecimal rendering is `hex`'s, salts come from `rand`.

use vstd::prelude::*;
use vstd::string::*;
use rand::Rng;
use sha2::Digest;

verus! {

/// The SHA-256 digest of a byte string, as `sha2` computes it.
pub uninterp spec fn sha256(data: Seq<u8>) -> Seq<u8>;

/// Number of bytes of a SHA-256 digest.
pub const DIGEST_BYTES: usize = 32;

/// Number of random bytes of a salt.
pub const SALT_BYTES: usize = 16;

/// The lower-case hexadecimal digit of value `n`, for `n` below 16.
pub open spec fn hex_digit(n: int) -> char {
    seq!['0', '1', '2', '3', '4', '5', '6', '7', '8', '9', 'a', 'b', 'c', 'd', 'e', 'f'][n]
}

/// The lower-case hexadecimal rendering of a byte string: two digits for each
/// byte, the high half first.
pub open spec fn hex_lower(data: Seq<u8>) -> Seq<char> {
    Seq::new(
        2 * data.len(),
        |i: int|
            if i % 2 == 0 {
                hex_digit(data[i / 2] as int / 16)
            } else {
                hex_digit(data[i / 2] as int % 16)
            },
    )
}

/// Calls `sha2::Sha256::digest`. The contract names the result and states its
/// length, which the hasher's output size fixes at 32 bytes.
#[verifier::external_body]
fn sha256_digest(data: &[u8]) -> (r: Vec<u8>)
    ensures
        r@ == sha256(data@),
        r@.len() == DIGEST_BYTES,
{
    sha2::Sha256::digest(data).to_vec()
}

/// Calls `hex::encode`, which renders each byte as two lower-case hexadecimal
/// digits, the high half first.
#[verifier::external_body]
fn hex_encode(data: &[u8]) -> (r: String)
    ensures
        r@ == hex_lower(data@),
{
    hex::encode(data)
}

/// Draws 16 bytes from `rand::thread_rng`. Only their number is known.
#[verifier::external_body]
fn random_salt_bytes() -> (r: Vec<u8>)
    ensures
        r@.len() == SALT_BYTES,
{
    let mut rng = rand::thread_rng();
    let salt: [u8; 16] = rng.gen();
    salt.to_vec()
}

/// The bytes that are hashed for a password: the password's, then the salt's.
pub open spec fn salted(password: Seq<char>, salt: Seq<char>) -> Seq<u8> {
    vstd::utf8::encode_utf8(password) + vstd::utf8::encode_utf8(salt)
}

/// The stored hash of a password under a salt.
pub open spec fn hashed_password(password: Seq<char>, salt: Seq<char>) -> Seq<char> {
    hex_lower(sha256(salted(password, salt)))
}

fn salted_bytes(password: &str, salt: &str) -> (r: Vec<u8>)
    ensures
        r@ == salted(password@, salt@),
{
    let mut bytes: Vec<u8> = Vec::new();
    bytes.extend_from_slice(password.as_bytes());
    bytes.extend_from_slice(salt.as_bytes());
    assert(bytes@ =~= salted(password@, salt@));
    bytes
}

/// A fresh salt: the hexadecimal rendering of 16 random bytes.
pub fn generate_salt() -> (salt: String)
    ensures
        exists|bytes: Seq<u8>| bytes.len() == SALT_BYTES && salt@ == #[trigger] hex_lower(bytes),
        salt@.len() == 2 * SALT_BYTES,
{
    let bytes = random_salt_bytes();
    hex_encode(bytes.as_slice())
}

/// Hashes a password under a salt.
pub fn hash_password(password: &str, salt: &str) -> (hash: String)
    ensures
        hash@ == hashed_password(password@, salt@),
        hash@.len() == 2 * DIGEST_BYTES,
{
    let bytes = salted_bytes(password, salt);
    let digest = sha256_digest(bytes.as_slice());
    hex_encode(digest.as_slice())
}

/// The checksum of a text: the hexadecimal rendering of its SHA-256 digest.
pub open spec fn checksum(content: Seq<char>) -> Seq<char> {
    hex_lower(sha256(vstd::utf8::encode_utf8(content)))
}

/// Computes the checksum of a migration's content.
pub fn calculate_checksum(content: &str) -> (sum: String)
    ensures
        sum@ == checksum(content@),
        sum@.len() == 2 * DIGEST_BYTES,
{
    let digest = sha256_digest(content.as_bytes());
    hex_encode(digest.as_slice())
}

/// The salt under which vault passwords are hashed.
pub open spec fn vault_salt() -> Seq<char> {
    "aura-stronghold-salt-2024"@
}

/// The vault key of a password: the SHA-256 digest of the password followed
/// by `vault_salt()`.
pub open spec fn vault_key(password: Seq<char>) -> Seq<u8> {
    sha256(salted(password, vault_salt()))
}

/// The vault key computed last, kept so that the same password is not hashed
/// twice. It belongs to whoever owns the session and is handed to
/// `fast_password_hash`.
#[derive(Debug, Clone, PartialEq, Eq)]
pub struct PasswordCache {
    pub entry: Option<(String, Vec<u8>)>,
}

impl PasswordCache {
    /// What the cache holds is the vault key of the password it holds.
    pub open spec fn wf(self) -> bool {
        match self.entry {
            Some((password, key)) => key@ == vault_key(password@) && key@.len() == DIGEST_BYTES,
            None => true,
        }
    }

    /// An empty cache.
    pub fn new() -> (cache: PasswordCache)
        ensures
            cache.entry is None,
            cache.wf(),
    {
        PasswordCache { entry: None }
    }
}

/// The vault key of a password, 32 bytes long; taken from the cache where the
/// cache holds this password's key, else computed and cached.
pub fn fast_password_hash(password: &str, cache: &mut PasswordCache) -> (key: Vec<u8>)
    requires
        old(cache).wf(),
    ensures
        key@ == vault_key(password@),
        key@.len() == DIGEST_BYTES,
        final(cache).wf(),
        final(cache).entry matches Some((held, held_key)) && held@ == password@ && held_key@
            == key@,
{
    let asked = String::from_str(password);
    let cached = match &cache.entry {
        Some((held, held_key)) => {
            if *held == asked {
                let key = held_key.clone();
                assert(key@ =~= held_key@);
                Some(key)
            } else {
                None
            }
        },
        None => None,
    };
    match cached {
        Some(key) => key,
        None => {
            let bytes = salted_bytes(password, "aura-stronghold-salt-2024");
            let key = sha256_digest(bytes.as_slice());
            let kept = key.clone();
            assert(kept@ =~= key@);
            cache.entry = Some((asked, kept));
            key
        },
    }
}

/// Forgets the cached vault key.
pub fn clear_password_cache(cache: &mut PasswordCache)
    ensures
        final(cache).entry is None,
        final(cache).wf(),
{
    cache.entry = None;
}

} // verus!
