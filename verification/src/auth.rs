//! Password hashing for the administrator's account: salted Argon2id, in the
//! PHC string format, by the `argon2` crate.

use crate::error::TangoError;
use argon2::Argon2;
use password_hash::rand_core::{OsRng, RngCore};
use password_hash::{PasswordHash, PasswordHasher, PasswordVerifier, Salt, SaltString};
use vstd::prelude::*;
use vstd::string::StringSliceAdditionalSpecFns;

verus! {

/// The error of the `password_hash` crate.
#[verifier::external_type_specification]
#[verifier::external_body]
pub struct ExPasswordHashError(password_hash::Error);

/// The PHC string that Argon2id with the crate's default parameters makes
/// of `password` and the salt `salt`, given in base 64 without padding;
/// `None` where the crate refuses the salt or the password.
pub uninterp spec fn argon2id_phc(password: Seq<u8>, salt: Seq<char>) -> Option<Seq<char>>;

/// Whether Argon2 finds `password` to be the one that the PHC string
/// `stored` was made of, by the algorithm, version, parameters and salt
/// that `stored` names; false where `stored` is no PHC string.
pub uninterp spec fn argon2_verifies(password: Seq<u8>, stored: Seq<char>) -> bool;

/// A random salt, as text: bytes of the crate's recommended number from
/// the operating system's generator (`OsRng::try_fill_bytes`), encoded by
/// `SaltString::encode_b64`, as `SaltString::generate` does it; `None`
/// where the generator fails. Nothing is claimed of the salt.
#[verifier::external_body]
fn fresh_salt() -> (salt: Option<String>) {
    let mut bytes = [0u8; Salt::RECOMMENDED_LENGTH];
    OsRng.try_fill_bytes(&mut bytes).ok()?;
    match SaltString::encode_b64(&bytes) {
        Ok(salt) => Some(salt.as_str().to_owned()),
        Err(_) => None,
    }
}

/// Holds `password` against the PHC string `stored`: `PasswordHash::new`,
/// then `Argon2::default().verify_password`.
#[verifier::external_body]
fn argon2_verify(password: &[u8], stored: &str) -> (ok: bool)
    ensures
        ok == argon2_verifies(password@, stored@),
{
    match PasswordHash::new(stored) {
        Ok(hash) => Argon2::default().verify_password(password, &hash).is_ok(),
        Err(_) => false,
    }
}

/// Hashes `password` with `salt`: `Salt::from_b64`, then
/// `Argon2::default().hash_password`, then the hash as a string. The
/// result is the crate's error exactly where `argon2id_phc` has no value.
#[verifier::external_body]
fn argon2id_hash(password: &[u8], salt: &str) -> (r: Result<String, password_hash::Error>)
    ensures
        r matches Ok(h) ==> argon2id_phc(password@, salt@) == Some(h@),
        r is Err ==> argon2id_phc(password@, salt@) is None,
{
    let salt = Salt::from_b64(salt)?;
    let hash = Argon2::default().hash_password(password, salt)?;
    Ok(hash.to_string())
}

/// What is stored for a password, given what hashing it came to: the PHC
/// string, or `PasswordHash` if there is none.
pub open spec fn stored_for(phc: Option<Seq<char>>) -> Result<Seq<char>, TangoError> {
    match phc {
        Some(h) => Ok(h),
        None => Err(TangoError::PasswordHash),
    }
}

/// Turns the outcome of hashing into what is stored: the string as it is,
/// any failure as `PasswordHash`.
pub fn stored_hash(outcome: Result<String, password_hash::Error>) -> (r: Result<String, TangoError>)
    ensures
        outcome matches Ok(h) ==> r matches Ok(s) && s@ == h@,
        outcome is Err ==> r == Err::<String, TangoError>(TangoError::PasswordHash),
{
    match outcome {
        Ok(h) => Ok(h),
        Err(_) => Err(TangoError::PasswordHash),
    }
}

/// The Argon2id hash of `passwd` under the salt `salt`, as a PHC string.
pub fn hash_with_salt(passwd: &str, salt: &str) -> (r: Result<String, TangoError>)
    ensures
        r is Ok <==> argon2id_phc(passwd.spec_bytes(), salt@) is Some,
        r matches Ok(s) ==> stored_for(argon2id_phc(passwd.spec_bytes(), salt@)) == Ok::<Seq<char>, TangoError>(s@),
        r matches Err(e) ==> stored_for(argon2id_phc(passwd.spec_bytes(), salt@)) == Err::<Seq<char>, TangoError>(e),
{
    stored_hash(argon2id_hash(passwd.as_bytes(), salt))
}

/// The Argon2id hash of `passwd` under a salt drawn for the occasion, as a
/// PHC string. Whatever salt is drawn, the result is what `hash_with_salt`
/// makes of it; where none can be drawn, the result is `PasswordHash`.
pub fn hash_passwd(passwd: &str) -> (r: Result<String, TangoError>)
    ensures
        r matches Ok(s) ==> exists|salt: Seq<char>| #[trigger] argon2id_phc(passwd.spec_bytes(), salt) == Some(s@),
        r matches Err(e) ==> e == TangoError::PasswordHash,
{
    match fresh_salt() {
        Some(salt) => hash_with_salt(passwd, salt.as_str()),
        None => Err(TangoError::PasswordHash),
    }
}

/// Whether `passwd` is the password that the PHC string `stored` was made of.
pub fn verify_passwd(passwd: &str, stored: &str) -> (ok: bool)
    ensures
        ok == argon2_verifies(passwd.spec_bytes(), stored@),
{
    argon2_verify(passwd.as_bytes(), stored)
}

/// What a login comes to: it is let in if the name is the administrator's
/// and the password verifies, and is `Unauthorized` otherwise.
pub open spec fn login_verdict(name_matches: bool, verifies: bool) -> Result<(), TangoError> {
    if name_matches && verifies {
        Ok(())
    } else {
        Err(TangoError::Unauthorized)
    }
}

/// What a login comes to, given whether the name is the administrator's
/// and whether the password verified.
pub fn login_outcome(name_matches: bool, verifies: bool) -> (r: Result<(), TangoError>)
    ensures
        r == login_verdict(name_matches, verifies),
{
    if name_matches && verifies {
        Ok(())
    } else {
        Err(TangoError::Unauthorized)
    }
}

/// Judges a login as `username` with `passwd`, where the administrator is
/// `admin_username` and `admin_hash` is the stored hash of the
/// administrator's password.
pub fn check_login(username: &String, passwd: &str, admin_username: &String, admin_hash: &str) -> (r: Result<
    (),
    TangoError,
>)
    ensures
        r == login_verdict(username@ == admin_username@, argon2_verifies(passwd.spec_bytes(), admin_hash@)),
{
    let verifies = verify_passwd(passwd, admin_hash);
    login_outcome(*username == *admin_username, verifies)
}

} // verus!
