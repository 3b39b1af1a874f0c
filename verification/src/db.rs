//! Database setup decisions: where the database is, and the default
//! administrator account seeded into a fresh database.

use vstd::prelude::*;
use vstd::string::StringExecFns;
use vstd::string::StringSliceAdditionalSpecFns;
use vstd::utf8::encode_utf8;
use crate::handlers::auth::{
    argon2_password_matches, hash_password, login_outcome, phc_hash_parses, LoginCheck, NewUser,
};

verus! {

/// The database used when none is configured.
pub open spec fn default_database_url() -> Seq<char> {
    "sqlite:rust_ci.db"@
}

/// The database to connect to: the configured one, else the default.
pub fn database_url(configured: Option<String>) -> (url: String)
    ensures
        url@ == match configured {
            Some(u) => u@,
            None => default_database_url(),
        },
{
    match configured {
        Some(u) => u,
        None => String::from_str("sqlite:rust_ci.db"),
    }
}

/// The administrator is seeded only into a database that has no user named
/// "admin".
pub fn admin_seed_needed(admin_count: i64) -> (needed: bool)
    ensures
        needed == (admin_count == 0),
{
    admin_count == 0
}

/// The name of the seeded administrator.
pub open spec fn default_admin_name() -> Seq<char> {
    "admin"@
}

/// The password of the seeded administrator.
pub open spec fn default_admin_password() -> Seq<char> {
    "admin456"@
}

/// The account seeded into a fresh database: the administrator "admin",
/// whose password is "admin456" (hashed under a fresh salt).
pub fn default_admin() -> (user: NewUser)
    ensures
        user.username@ == default_admin_name(),
        user.is_admin,
        phc_hash_parses(user.password_hash@),
        argon2_password_matches(encode_utf8(default_admin_password()), user.password_hash@),
        login_outcome(Some(user.password_hash@), encode_utf8(default_admin_password()))
            == LoginCheck::Accepted,
{
    let password = "admin456";
    proof {
        reveal_strlit("admin456");
        broadcast use vstd::string::is_ascii_spec_bytes;
        assert(vstd::string::is_ascii(password));
        assert(password.spec_bytes().len() == 8);
    }
    NewUser {
        username: String::from_str("admin"),
        password_hash: hash_password(password),
        is_admin: true,
    }
}

} // verus!
