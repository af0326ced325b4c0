//! Confirmation and one-way hashing of a password typed twice.

use vstd::prelude::*;

verus! {

#[verifier::external_type_specification]
#[verifier::external_body]
pub struct ExSha512Params(sha_crypt::Sha512Params);

#[verifier::external_type_specification]
#[verifier::external_body]
pub struct ExCryptError(sha_crypt::CryptError);

/// Relies on sha_crypt::Sha512Params::new: it accepts a round count from
/// 1000 to 999999999 and refuses any other.
pub assume_specification[ sha_crypt::Sha512Params::new ](rounds: usize) -> (r: Result<
    sha_crypt::Sha512Params,
    sha_crypt::CryptError,
>)
    ensures
        r is Ok <==> 1000 <= rounds <= 999_999_999,
;

/// Relies on sha_crypt::sha512_simple: with a random salt, a crypt string
/// that starts with the SHA-512 identifier `$6$`. Its one error path is the
/// round-count check, which every `Sha512Params` value passes (they are made
/// only by the checking `new` or by `Default`), so it always succeeds.
pub assume_specification[ sha_crypt::sha512_simple ](
    password: &str,
    params: &sha_crypt::Sha512Params,
) -> (r: Result<String, sha_crypt::CryptError>)
    ensures
        r is Ok,
        r matches Ok(h) ==> h@.len() >= 3 && h@.subrange(0, 3) == "$6$"@,
;

/// The encrypt-password command; it takes no options.
#[derive(Debug, Clone, Copy)]
pub struct Passwd {}

/// Rounds of SHA-512 crypt used for password hashes.
pub const HASH_ROUNDS: usize = 5000;

/// Why a password could not be hashed.
#[derive(Debug, Clone, Copy, PartialEq, Eq, Structural)]
pub enum PasswdError {
    /// The confirmation differs from the password.
    Mismatch,
    /// The hashing failed.
    HashFailed,
}

impl PasswdError {
    /// A human-readable description of the error.
    pub fn message(&self) -> &'static str {
        match self {
            PasswdError::Mismatch => "Passwords do not match",
            PasswdError::HashFailed => "Encrypt Error",
        }
    }
}

/// Hashes `password` with SHA-512 crypt once `confirmation` matches it.
pub fn encrypt_password(password: &str, confirmation: &str) -> (r: Result<String, PasswdError>)
    ensures
        r == Err::<String, PasswdError>(PasswdError::Mismatch) <==> password@ != confirmation@,
        password@ == confirmation@ ==> r is Ok,
        r matches Ok(h) ==> h@.len() >= 3 && h@.subrange(0, 3) == "$6$"@,
{
    let a = String::from_str(password);
    let b = String::from_str(confirmation);
    if !(a == b) {
        return Err(PasswdError::Mismatch);
    }
    let params = match sha_crypt::Sha512Params::new(HASH_ROUNDS) {
        Ok(p) => p,
        Err(_) => {
            return Err(PasswdError::HashFailed);
        },
    };
    match sha_crypt::sha512_simple(password, &params) {
        Ok(h) => Ok(h),
        Err(_) => Err(PasswdError::HashFailed),
    }
}

} // verus!
