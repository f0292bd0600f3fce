//! Accounts: registration and login. The route shells look the account
//! up and store it; the decisions — email validation, duplicate
//! rejection, password hashing and password checking — live here.

use vstd::prelude::*;

use sha2::{Digest, Sha512};

use crate::clock::current_timestamp_millis;
use crate::error::ApiError;
use crate::ids::{is_object_id_hex, new_object_id_hex};
use crate::text::str_eq;

verus! {

/// A registered account. `password` holds the SHA-512 digest of the
/// password, as 128 upper-case hexadecimal digits, never the password
/// itself.
#[derive(Clone, Debug)]
pub struct User {
    pub _id: String,
    pub email: String,
    pub username: String,
    pub password: String,
    pub created_at: i64,
}

/// The body of a registration request.
#[derive(Clone, Debug)]
pub struct RegisterData {
    pub username: String,
    pub email: String,
    pub password: String,
}

/// The body of a login request.
#[derive(Clone, Debug)]
pub struct LoginData {
    pub email: String,
    pub password: String,
}

/// The SHA-512 digest of a string's text, rendered as 128 upper-case
/// hexadecimal digits: a function of the input alone.
pub uninterp spec fn sha512_hex(s: Seq<char>) -> Seq<char>;

/// Relies on sha2's `Sha512` (`update`, `finalize`) and the upper-hex
/// formatting of the digest, which pads every byte to two digits: the
/// digest of the password's bytes as 2 × 64 hex characters, depending
/// on the password alone.
#[verifier::external_body]
fn hash_password(password: &String) -> (r: String)
    ensures
        r@ == sha512_hex(password@),
        r@.len() == 128,
{
    let mut hasher = Sha512::new();
    hasher.update(password);
    format!("{:X}", hasher.finalize())
}

/// Whether the account routes' email pattern matches the start of the
/// string: a lower-case local part of letters, digits, `_`, `+` and
/// inner dots, an `@`, and a domain of dot- or hyphen-joined labels
/// with a final label of two to six letters.
pub uninterp spec fn email_matches(s: Seq<char>) -> bool;

/// Relies on regex's `Regex::new` and `Regex::is_match` with the fixed
/// anchored pattern below: whether the string starts with a well-formed
/// email address, a function of the string alone. The pattern is a
/// valid constant, so compiling it cannot fail.
#[verifier::external_body]
fn email_regex_is_match(email: &str) -> (r: bool)
    ensures
        r == email_matches(email@),
{
    regex::Regex::new(
        r"^([a-z0-9_+]([a-z0-9_+.]*[a-z0-9_+])?)@([a-z0-9]+([\-\.]{1}[a-z0-9]+)*\.[a-z]{2,6})",
    ).unwrap().is_match(email)
}

/// Whether an email address is acceptable to the account routes.
pub fn validate_email(email: &str) -> (r: bool)
    ensures
        r == email_matches(email@),
{
    email_regex_is_match(email)
}

/// The decision the registration route takes once the store has said
/// whether the email is already in use: a malformed email is rejected,
/// a taken email conflicts, and otherwise the account record to store
/// is built, with a fresh id and the password replaced by its digest.
pub fn register_decision(data: &RegisterData, email_taken: bool) -> (r: Result<User, ApiError>)
    ensures
        r is Ok <==> email_matches(data.email@) && !email_taken,
        r matches Ok(u) ==> {
            &&& u.email@ == data.email@
            &&& u.username@ == data.username@
            &&& u.password@ == sha512_hex(data.password@)
            &&& is_object_id_hex(u._id@)
        },
        r matches Err(e) ==> if !email_matches(data.email@) {
            e matches ApiError::MalformedEmail
        } else {
            e matches ApiError::Conflict
        },
{
    if !validate_email(data.email.as_str()) {
        return Err(ApiError::MalformedEmail);
    }
    if email_taken {
        return Err(ApiError::Conflict);
    }
    Ok(
        User {
            _id: new_object_id_hex(),
            email: data.email.clone(),
            username: data.username.clone(),
            password: hash_password(&data.password),
            created_at: current_timestamp_millis(),
        },
    )
}

/// The decision the login route takes once the store has been asked
/// for the account: a malformed email is rejected, an unknown account
/// is not found, a password whose digest differs from the stored one
/// is refused, and otherwise the account's id is handed back for the
/// session token.
pub fn login_decision(data: &LoginData, account: Option<&User>) -> (r: Result<String, ApiError>)
    ensures
        r is Ok <==> email_matches(data.email@) && (account matches Some(u) && sha512_hex(
            data.password@,
        ) == u.password@),
        r matches Ok(id) ==> account matches Some(u) && id@ == u._id@,
        r matches Err(e) ==> if !email_matches(data.email@) {
            e matches ApiError::MalformedEmail
        } else if account is None {
            e matches ApiError::NotFound
        } else {
            e matches ApiError::Unauthorized
        },
{
    if !validate_email(data.email.as_str()) {
        return Err(ApiError::MalformedEmail);
    }
    match account {
        None => Err(ApiError::NotFound),
        Some(u) => {
            let h = hash_password(&data.password);
            if str_eq(h.as_str(), u.password.as_str()) {
                Ok(u._id.clone())
            } else {
                Err(ApiError::Unauthorized)
            }
        },
    }
}

} // verus!
