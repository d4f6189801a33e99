//! The sign-on service: its routes.

use vstd::prelude::*;
use vstd::string::*;
use crate::error::ApiError;
use crate::passwords::{argon2_hash_outcome, checks_out, is_generated_salt, argon2_verify, argon2_verify_outcome, generate_salt, hash_with_salt};
use crate::text::{has_prefix, lemma_differs_at, starts_with};

verus! {

/// The endpoints of the sign-on service.
#[derive(PartialEq, Eq, Structural, Clone, Copy, Debug)]
pub enum Routes {
    Signup,
    Signin,
}

/// The route under which each endpoint is mounted.
pub open spec fn route_pattern(r: Routes) -> Seq<char> {
    match r {
        Routes::Signup => "/signup"@,
        Routes::Signin => "/signin"@,
    }
}

/// The endpoint a request path belongs to: paths beginning with `/signup`
/// sign up, and every other path signs in.
pub open spec fn route_for_path(p: Seq<char>) -> Routes {
    if has_prefix(p, "/signup"@) {
        Routes::Signup
    } else {
        Routes::Signin
    }
}

impl Routes {
    /// The route of this endpoint.
    pub fn as_str(&self) -> (s: &'static str)
        ensures
            s@ == route_pattern(*self),
    {
        match self {
            Routes::Signup => "/signup",
            Routes::Signin => "/signin",
        }
    }
}

impl From<String> for Routes {
    fn from(value: String) -> (r: Self) {
        if starts_with(value.as_str(), "/signup") {
            Routes::Signup
        } else {
            Routes::Signin
        }
    }
}

impl vstd::std_specs::convert::FromSpecImpl<String> for Routes {
    open spec fn obeys_from_spec() -> bool {
        true
    }

    open spec fn from_spec(v: String) -> Self {
        route_for_path(v@)
    }
}


/// Hashes `password` with a fresh random salt; the stored form is the PHC
/// string of the hash, which carries the salt, and a failure of the hasher
/// is an internal error carrying its text. The salt is a fresh 22-character B64
/// salt as `generate_salt` draws it; which one is left open.
pub fn encrypt_password(password: &[u8]) -> (r: Result<String, ApiError>)
    ensures
        exists|salt: Seq<char>|
            is_generated_salt(salt) && match #[trigger] argon2_hash_outcome(password@, salt) {
                Ok(h) => r matches Ok(s) && s@ == h && checks_out(password@, h),
                Err(m) => r matches Err(e) && e.status == 500 && e.message@ == m,
            },
{
    let salt = generate_salt();
    let r = hash_with_salt(password, salt.as_str());
    let ghost outcome = argon2_hash_outcome(password@, salt@);
    assert(match outcome {
        Ok(h) => r matches Ok(s) && s@ == h && checks_out(password@, h),
        Err(m) => r matches Err(e) && e.status == 500 && e.message@ == m,
    });
    r
}

/// Whether `password` matches the stored PHC string; a stored value that
/// is not a PHC string is an internal error carrying the parser's text.
pub fn compare_passwords(password: &[u8], comperable_password: String) -> (r: Result<
    bool,
    ApiError,
>)
    ensures
        match argon2_verify_outcome(password@, comperable_password@) {
            Ok(b) => r matches Ok(c) && c == b,
            Err(m) => r matches Err(e) && e.status == 500 && e.message@ == m,
        },
{
    match argon2_verify(password, comperable_password.as_str()) {
        Ok(b) => Ok(b),
        Err(m) => Err(ApiError::internal(m)),
    }
}

/// Sign-in's check of `password` against the stored PHC string: only a
/// stored value that is not a PHC string stops the sign-in, as an internal
/// error carrying the parser's text; whether the password matches does not.
pub fn verify_stored_password(password: &[u8], stored: String) -> (r: Result<(), ApiError>)
    ensures
        match argon2_verify_outcome(password@, stored@) {
            Ok(_) => r is Ok,
            Err(m) => r matches Err(e) && e.status == 500 && e.message@ == m,
        },
{
    match compare_passwords(password, stored) {
        Ok(_) => Ok(()),
        Err(e) => Err(e),
    }
}

/// Reading an endpoint's own route back gives that endpoint.
pub proof fn lemma_route_pattern_round_trip(r: Routes)
    ensures
        route_for_path(route_pattern(r)) == r,
{
    reveal_strlit("/signup");
    reveal_strlit("/signin");
    if r == Routes::Signup {
        assert("/signup"@.subrange(0, 7) =~= "/signup"@);
    } else {
        lemma_differs_at("/signin"@, "/signup"@, 5);
    }
}

/// Where each endpoint of the sign-on service is mounted, and which
/// requests reach it: a path beginning with `/signup` signs up, and every
/// other path signs in.
pub proof fn lemma_route_patterns(p: Seq<char>)
    ensures
        route_pattern(Routes::Signup) == "/signup"@,
        route_pattern(Routes::Signin) == "/signin"@,
        route_for_path("/signup"@ + p) == Routes::Signup,
        !has_prefix(p, "/signup"@) ==> route_for_path(p) == Routes::Signin,
{
    reveal_strlit("/signup");
    assert(("/signup"@ + p).subrange(0, 7) =~= "/signup"@);
}

} // verus!
