//! Password hashes with Argon2 (the `rust-argon2` crate) and random salts
//! from the operating system (the `rand` crate).
use vstd::prelude::*;

verus! {

/// The encoded Argon2 hash (`argon2::hash_encoded` with the crate's default
/// configuration) of a password, given as its characters, with a salt, or
/// `None` where the crate refuses the input.
pub uninterp spec fn argon2_hash(password: Seq<char>, salt: Seq<u8>) -> Option<Seq<char>>;

/// What `argon2::verify_encoded` answers for an encoded hash and a password
/// given as its characters: whether the password matches, or `None` where
/// the hash cannot be read.
pub uninterp spec fn argon2_verify(encoded: Seq<char>, password: Seq<char>) -> Option<bool>;

/// The start of every hash that `hash_password` gives: the name of the
/// Argon2id variant, which the crate's default configuration uses, between
/// dollar signs.
pub open spec fn argon2id_prefix() -> Seq<char> {
    seq!['$', 'a', 'r', 'g', 'o', 'n', '2', 'i', 'd', '$']
}

/// The number of bytes in a salt.
pub const SALT_LEN: usize = 16;

/// Hashes a password with a salt (`argon2::hash_encoded` with
/// `argon2::Config::default()`, over the password's UTF-8 bytes). The crate
/// refuses a salt shorter than 8 bytes and a password longer than
/// `0xFFFF_FFFF` bytes, and nothing else with its default configuration; a
/// password of at most `0x3FFF_FFFF` characters has at most that many bytes.
/// Verifying the hash with the same password gives `true`: the crate
/// recomputes the hash with the parameters and salt that the encoding holds.
/// The encoding starts with `$argon2id$`, the variant of the default
/// configuration.
#[verifier::external_body]
pub(crate) fn hash_password(password: &str, salt: &[u8]) -> (r: Option<String>)
    ensures
        r matches Some(h) ==> argon2_hash(password@, salt@) == Some(h@),
        r is None ==> argon2_hash(password@, salt@) is None,
        8 <= salt@.len() <= 0xFFFF_FFFF && password@.len() <= 0x3FFF_FFFF ==> r is Some,
        r matches Some(h) ==> argon2_verify(h@, password@) == Some(true),
        r matches Some(h) ==> h@.len() >= 10 && h@.subrange(0, 10) == argon2id_prefix(),
{
    match argon2::hash_encoded(password.as_bytes(), salt, &argon2::Config::default()) {
        Ok(h) => Some(h),
        Err(_) => None,
    }
}

/// Checks a password against an encoded Argon2 hash
/// (`argon2::verify_encoded`, over the password's UTF-8 bytes).
#[verifier::external_body]
pub(crate) fn verify_password(encoded: &str, password: &str) -> (r: Option<bool>)
    ensures
        r == argon2_verify(encoded@, password@),
{
    match argon2::verify_encoded(encoded, password.as_bytes()) {
        Ok(b) => Some(b),
        Err(_) => None,
    }
}

/// Fills `buf` with random bytes from the operating system
/// (`rand::rngs::OsRng`, `try_fill_bytes`), and tells whether it could.
/// The bytes are random: nothing is known of them but their number.
#[verifier::external_body]
fn fill_random(buf: &mut Vec<u8>) -> (ok: bool)
    ensures
        final(buf)@.len() == old(buf)@.len(),
{
    rand::RngCore::try_fill_bytes(&mut rand::rngs::OsRng, buf.as_mut_slice()).is_ok()
}

/// `n` random bytes from the operating system, or `None` when it has none
/// to give.
pub(crate) fn random_bytes(n: usize) -> (r: Option<Vec<u8>>)
    ensures
        r matches Some(s) ==> s@.len() == n,
{
    let mut bytes: Vec<u8> = Vec::new();
    while bytes.len() < n
        invariant
            bytes@.len() <= n,
        decreases n - bytes@.len(),
    {
        bytes.push(0);
    }
    if fill_random(&mut bytes) {
        Some(bytes)
    } else {
        None
    }
}

/// A salt of `SALT_LEN` random bytes, or `None` when the operating system
/// has no random bytes to give.
pub fn random_salt() -> (r: Option<Vec<u8>>)
    ensures
        r matches Some(s) ==> s@.len() == SALT_LEN,
{
    random_bytes(SALT_LEN)
}

} // verus!
