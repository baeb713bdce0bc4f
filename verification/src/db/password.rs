//! Password hashes (Argon2id) and access to a protected database.
use vstd::prelude::*;
use crate::db::error::DbError;
use crate::text::to_owned_string;

verus! {

/// What checking `password` against the stored PHC string `hash` with
/// Argon2 gives: whether it matches, or the text of the hash's parse error.
pub uninterp spec fn argon2_check(hash: Seq<char>, password: Seq<char>) -> Result<bool, Seq<char>>;

/// `PasswordHash::new(stored_hash)` then `Argon2::default().verify_password`:
/// the parse error's text, or whether the password matches.  The outcome
/// depends on the two texts alone.
#[verifier::external_body]
fn argon2_verify(stored_hash: &str, password: &str) -> (r: Result<bool, String>)
    ensures
        match r {
            Ok(b) => argon2_check(stored_hash@, password@) == Ok::<bool, Seq<char>>(b),
            Err(e) => argon2_check(stored_hash@, password@) == Err::<bool, Seq<char>>(e@),
        },
{
    let parsed = argon2::password_hash::PasswordHash::new(stored_hash).map_err(|e| e.to_string())?;
    Ok(
        argon2::PasswordVerifier::verify_password(
            &argon2::Argon2::default(),
            password.as_bytes(),
            &parsed,
        ).is_ok(),
    )
}

/// `Argon2::default().hash_password` with a fresh random salt, as a PHC
/// string (`$argon2id$v=19$...`), or the error's text.  The salt is
/// random, so nothing fixes the string; the crate's documentation shows
/// that the password verifies against it.
#[verifier::external_body]
fn argon2_hash(password: &str) -> (r: Result<String, String>)
    ensures
        match r {
            Ok(h) => argon2_check(h@, password@) == Ok::<bool, Seq<char>>(true),
            Err(_) => true,
        },
{
    let salt = argon2::password_hash::SaltString::generate(&mut rand::thread_rng());
    argon2::PasswordHasher::hash_password(&argon2::Argon2::default(), password.as_bytes(), &salt)
        .map(|h| h.to_string())
        .map_err(|e| e.to_string())
}

/// A new Argon2id hash of `password`, with a random salt.  A hash that is
/// produced verifies with the same password.
pub fn generate_hash(password: &str) -> (r: Result<String, DbError>)
    ensures
        r matches Ok(h) ==> argon2_check(h@, password@) == Ok::<bool, Seq<char>>(true),
        r matches Err(e) ==> e is Password,
{
    match argon2_hash(password) {
        Ok(h) => Ok(h),
        Err(e) => Err(DbError::Password(e)),
    }
}

/// Whether `password` matches the stored hash; an error when the stored
/// hash cannot be read.
pub fn verify_hash(stored_hash: &str, password: &str) -> (r: Result<bool, DbError>)
    ensures
        match argon2_check(stored_hash@, password@) {
            Ok(b) => r matches Ok(c) && c == b,
            Err(t) => r matches Err(DbError::Password(m)) && m@ == t,
        },
{
    match argon2_verify(stored_hash, password) {
        Ok(b) => Ok(b),
        Err(e) => Err(DbError::Password(e)),
    }
}

/// The lock settings of a database: whether it is locked and its hash.
pub open spec fn access_outcome(config_row: Option<(i32, Option<Seq<char>>)>, password: Option<Seq<char>>) -> Result<(), (bool, Seq<char>)> {
    match config_row {
        Some((1, Some(hash))) => match password {
            None => Err((false, "Database is password protected. Password required."@)),
            Some(p) => match argon2_check(hash, p) {
                Err(t) => Err((true, t)),
                Ok(false) => Err((false, "Invalid password."@)),
                Ok(true) => Ok(()),
            },
        },
        Some((1, None)) => Err((false, "Database is locked but no password hash configured."@)),
        _ => Ok(()),
    }
}

/// Whether a database may be opened: a locked database (flag 1) needs a
/// password that matches its hash, and must have a hash.  `config_row` is
/// the database's lock flag and hash, if it has a configuration row.
/// Errors are `InvalidData`, or `Password` when the hash is unreadable.
pub fn check_database_access(config_row: Option<(i32, Option<String>)>, password: Option<&str>) -> (r:
    Result<(), DbError>)
    ensures
        match access_outcome(
            match config_row {
                Some((flag, h)) => Some(
                    (
                        flag,
                        match h {
                            Some(s) => Some(s@),
                            None => None,
                        },
                    ),
                ),
                None => None,
            },
            match password {
                Some(p) => Some(p@),
                None => None,
            },
        ) {
            Ok(()) => r is Ok,
            Err((true, t)) => r matches Err(DbError::Password(m)) && m@ == t,
            Err((false, t)) => r matches Err(DbError::InvalidData(m)) && m@ == t,
        },
{
    match config_row {
        Some((1, Some(hash))) => {
            let provided = match password {
                Some(p) => p,
                None => {
                    return Err(
                        DbError::InvalidData(
                            to_owned_string("Database is password protected. Password required."),
                        ),
                    );
                },
            };
            match verify_hash(hash.as_str(), provided) {
                Err(e) => Err(e),
                Ok(false) => Err(DbError::InvalidData(to_owned_string("Invalid password."))),
                Ok(true) => Ok(()),
            }
        },
        Some((1, None)) => Err(
            DbError::InvalidData(
                to_owned_string("Database is locked but no password hash configured."),
            ),
        ),
        _ => Ok(()),
    }
}

/// Whether a password may be reset with `recovery_key`: there must be a
/// stored recovery key hash (`recovery_hash`), and the key must match it.
/// Errors are `InvalidData`, or `Password` when the hash is unreadable.
pub fn check_recovery_key(recovery_hash: Option<&str>, recovery_key: &str) -> (r: Result<(), DbError>)
    ensures
        match recovery_hash {
            None => r matches Err(DbError::InvalidData(m)) && m@ == "No recovery key configured"@,
            Some(h) => match argon2_check(h@, recovery_key@) {
                Err(t) => r matches Err(DbError::Password(m)) && m@ == t,
                Ok(false) => r matches Err(DbError::InvalidData(m)) && m@ == "Invalid recovery key"@,
                Ok(true) => r is Ok,
            },
        },
{
    match recovery_hash {
        None => Err(DbError::InvalidData(to_owned_string("No recovery key configured"))),
        Some(h) => match verify_hash(h, recovery_key) {
            Err(e) => Err(e),
            Ok(false) => Err(DbError::InvalidData(to_owned_string("Invalid recovery key"))),
            Ok(true) => Ok(()),
        },
    }
}

} // verus!
