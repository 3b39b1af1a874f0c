//! Logging in, password hashing and the user administration page.

use vstd::prelude::*;
use vstd::string::StringExecFns;
use vstd::utf8::encode_utf8;
use argon2::password_hash::rand_core::OsRng;
use argon2::password_hash::{PasswordHash, PasswordHasher, PasswordVerifier, SaltString};
use argon2::Argon2;
use crate::handlers::{opt_view, save_messages, save_messages_spec};
use crate::i18n::{catalog_lookup, catalog_text, localized_text};
use crate::models::User;
use crate::templates::{LoginTemplate, UsersTemplate};

verus! {

/// The login form.
pub struct LoginPayload {
    pub username: String,
    pub password: String,
}

/// The language switch form: the language to use and the page to go back to.
pub struct LangPayload {
    pub lang: String,
    pub next: String,
}

/// The user form; the admin box is checked when `is_admin` is present.
pub struct UserPayload {
    pub username: String,
    pub password: String,
    pub is_admin: Option<String>,
}

/// Whether `hash` is a password hash in the PHC string format, as
/// `PasswordHash::new` of the password-hash crate accepts it.
pub uninterp spec fn phc_hash_parses(hash: Seq<char>) -> bool;

/// Whether Argon2 accepts `password` for the PHC hash `hash`: whether
/// `PasswordVerifier::verify_password` of `argon2::Argon2::default()`
/// returns `Ok` for them, recomputing the hash with the algorithm, version,
/// parameters and salt that `hash` records.
pub uninterp spec fn argon2_password_matches(password: Seq<u8>, hash: Seq<char>) -> bool;

/// Parses `hash` with `password_hash::PasswordHash::new` and, when it
/// parses, checks `password` against it with
/// `PasswordVerifier::verify_password` of `argon2::Argon2::default()`.
/// Claimed: `None` exactly when the hash does not parse, else whether the
/// password verifies. Neither outcome is given in closed form here.
#[verifier::external_body]
fn argon2_verify(password: &[u8], hash: &str) -> (r: Option<bool>)
    ensures
        r is Some <==> phc_hash_parses(hash@),
        r matches Some(ok) ==> ok == argon2_password_matches(password@, hash@),
{
    match PasswordHash::new(hash) {
        Ok(parsed) => Some(Argon2::default().verify_password(password, &parsed).is_ok()),
        Err(_) => None,
    }
}

/// Hashes `password` with `argon2::Argon2::default()`
/// (`PasswordHasher::hash_password`) under a fresh salt from
/// `SaltString::generate(&mut OsRng)`, and renders the hash as a PHC string.
/// Claimed: the string parses as a PHC hash and Argon2 accepts `password`
/// for it (the hash records the algorithm, version, parameters and salt it
/// was made with, and verification recomputes it from them). The salt is
/// random, so nothing more is said of the string. Passwords longer than
/// `argon2::MAX_PWD_LEN` bytes are refused by the crate and left out.
#[verifier::external_body]
fn argon2_hash_new(password: &[u8]) -> (r: String)
    requires
        password@.len() <= 0xFFFF_FFFF,
    ensures
        phc_hash_parses(r@),
        argon2_password_matches(password@, r@),
{
    let salt = SaltString::generate(&mut OsRng);
    Argon2::default().hash_password(password, &salt).unwrap().to_string()
}

/// The outcome of a login attempt.
#[derive(PartialEq, Eq, Debug)]
pub enum LoginCheck {
    /// The password is the user's.
    Accepted,
    /// There is no such user, or the password is not theirs.
    Rejected,
    /// The stored hash of the user is not a PHC hash string.
    MalformedHash,
}

/// The outcome of logging in with `password` as a user whose stored
/// password hash is `stored_hash` (`None`: no such user could be read).
pub open spec fn login_outcome(stored_hash: Option<Seq<char>>, password: Seq<u8>) -> LoginCheck {
    match stored_hash {
        None => LoginCheck::Rejected,
        Some(h) => if !phc_hash_parses(h) {
            LoginCheck::MalformedHash
        } else if argon2_password_matches(password, h) {
            LoginCheck::Accepted
        } else {
            LoginCheck::Rejected
        },
    }
}

/// Checks a login attempt against the stored password hash of the user
/// (`None` when no user of that name could be read).
pub fn check_login(stored_hash: Option<&str>, password: &str) -> (r: LoginCheck)
    ensures
        r == login_outcome(
            match stored_hash {
                Some(h) => Some(h@),
                None => None,
            },
            encode_utf8(password@),
        ),
{
    match stored_hash {
        None => LoginCheck::Rejected,
        Some(h) => match argon2_verify(password.as_bytes(), h) {
            None => LoginCheck::MalformedHash,
            Some(true) => LoginCheck::Accepted,
            Some(false) => LoginCheck::Rejected,
        },
    }
}

/// Hashes a new password for storage, under a fresh random salt.
pub fn hash_password(password: &str) -> (hash: String)
    requires
        encode_utf8(password@).len() <= 0xFFFF_FFFF,
    ensures
        phc_hash_parses(hash@),
        argon2_password_matches(encode_utf8(password@), hash@),
{
    argon2_hash_new(password.as_bytes())
}

/// A hash made by [`hash_password`] logs its password in: whoever stores
/// the hash of a password can log in with that password.
pub proof fn lemma_stored_hash_accepts_password(password: Seq<u8>, hash: Seq<char>)
    requires
        phc_hash_parses(hash),
        argon2_password_matches(password, hash),
    ensures
        login_outcome(Some(hash), password) == LoginCheck::Accepted,
{
}

/// A login is accepted only for a user that exists, whose stored hash is
/// well formed and accepts the password.
pub proof fn lemma_accepted_login_matches(stored_hash: Option<Seq<char>>, password: Seq<u8>)
    requires
        login_outcome(stored_hash, password) == LoginCheck::Accepted,
    ensures
        stored_hash is Some,
        phc_hash_parses(stored_hash->0),
        argon2_password_matches(password, stored_hash->0),
{
}

/// The login page: after a failed attempt it shows the catalog's login
/// error in the session's language. The flag tells whether that error had no
/// catalog text in the language (then "UNKNOWN" is shown, and the caller
/// should warn that the text of "login_err" is missing).
pub fn login_page(lang: String, failed: bool) -> (r: (LoginTemplate, bool))
    ensures
        r.0.lang == lang,
        !r.0.is_logged_in,
        r.0.success_msg is None,
        !failed ==> r.0.error_msg is None,
        failed ==> (r.0.error_msg matches Some(m) && m@ == localized_text("login_err"@, lang@)),
        r.1 == (failed && catalog_text("login_err"@, lang@) is None),
{
    let (error_msg, missing) = if failed {
        match catalog_lookup("login_err", lang.as_str()) {
            Some(text) => (Some(String::from_str(text)), false),
            None => (Some(String::from_str("UNKNOWN")), true),
        }
    } else {
        (None, false)
    };
    (LoginTemplate { lang, is_logged_in: false, error_msg, success_msg: None }, missing)
}

/// What is stored for a submitted user form.
pub struct NewUser {
    pub username: String,
    pub password_hash: String,
    pub is_admin: bool,
}

/// Prepares a submitted user form for storage: the password is hashed under
/// a fresh salt, and the user is an admin when the admin box was checked.
pub fn prepare_user(payload: &UserPayload) -> (user: NewUser)
    requires
        encode_utf8(payload.password@).len() <= 0xFFFF_FFFF,
    ensures
        user.username == payload.username,
        phc_hash_parses(user.password_hash@),
        argon2_password_matches(encode_utf8(payload.password@), user.password_hash@),
        user.is_admin == payload.is_admin is Some,
{
    NewUser {
        username: payload.username.clone(),
        password_hash: hash_password(payload.password.as_str()),
        is_admin: payload.is_admin.is_some(),
    }
}

/// The user administration page. `saved` is the outcome of a submitted user
/// form (the database error's text on failure), `None` when nothing was
/// submitted. The flag tells whether a success message had no catalog text
/// in the language (the text of "users_saved" is missing).
pub fn users_page(lang: String, users: Vec<User>, saved: Option<Result<(), String>>) -> (r: (
    UsersTemplate,
    bool,
))
    ensures
        r.0.lang == lang,
        r.0.is_logged_in,
        r.0.users == users,
        saved is None ==> r.0.error_msg is None && r.0.success_msg is None,
        saved is Some ==> (opt_view(r.0.error_msg), opt_view(r.0.success_msg))
            == save_messages_spec(
            lang@,
            "users_saved"@,
            match saved->0 {
                Ok(()) => Ok(()),
                Err(e) => Err(e@),
            },
        ),
        r.1 == (saved matches Some(Ok(())) && catalog_text("users_saved"@, lang@) is None),
{
    let (error_msg, success_msg, missing) = match saved {
        None => (None, None, false),
        Some(outcome) => save_messages(lang.as_str(), "users_saved", outcome),
    };
    (UsersTemplate { lang, is_logged_in: true, error_msg, success_msg, users }, missing)
}

} // verus!
