//! The combined storage service: its routes.

use vstd::prelude::*;
use vstd::string::*;
use crate::error::ApiError;
use crate::passwords::{argon2_hash_outcome, checks_out, is_generated_salt, generate_salt, hash_with_salt};
use crate::text::{path_param, path_wildcard, str_equal};

verus! {

/// The endpoints of the combined storage service.
#[derive(PartialEq, Eq, Structural, Clone, Copy, Debug)]
pub enum Routes {
    Signup,
    Signin,
    CreateBucket,
    DeleteBucket,
    HeadBucket,
    Object,
    Unknown,
}

/// The route pattern under which each endpoint is mounted.
pub open spec fn route_pattern(r: Routes) -> Seq<char> {
    match r {
        Routes::Signup => "/signup"@,
        Routes::Signin => "/signin"@,
        Routes::CreateBucket => "/create_bucket/:bucket_name"@,
        Routes::DeleteBucket => "/delete_bucket/:bucket_name"@,
        Routes::HeadBucket => "/head_bucket/:bucket_name"@,
        Routes::Object => "/:bucket_name/*objectpath"@,
        Routes::Unknown => "/not-found"@,
    }
}

/// The endpoint whose route pattern is exactly `p`; any other text is
/// unknown.
pub open spec fn route_for_path(p: Seq<char>) -> Routes {
    if p == "/signup"@ {
        Routes::Signup
    } else if p == "/signin"@ {
        Routes::Signin
    } else if p == "/create_bucket/:bucket_name"@ {
        Routes::CreateBucket
    } else if p == "/delete_bucket/:bucket_name"@ {
        Routes::DeleteBucket
    } else if p == "/head_bucket/:bucket_name"@ {
        Routes::HeadBucket
    } else if p == "/:bucket_name/*objectpath"@ {
        Routes::Object
    } else {
        Routes::Unknown
    }
}

impl Routes {
    /// The route pattern of this endpoint.
    pub fn as_str(&self) -> (s: &'static str)
        ensures
            s@ == route_pattern(*self),
    {
        match self {
            Routes::Signup => "/signup",
            Routes::Signin => "/signin",
            Routes::CreateBucket => "/create_bucket/:bucket_name",
            Routes::DeleteBucket => "/delete_bucket/:bucket_name",
            Routes::HeadBucket => "/head_bucket/:bucket_name",
            Routes::Object => "/:bucket_name/*objectpath",
            Routes::Unknown => "/not-found",
        }
    }
}

impl From<String> for Routes {
    fn from(value: String) -> (r: Self) {
        let v = value.as_str();
        if str_equal(v, "/signup") {
            Routes::Signup
        } else if str_equal(v, "/signin") {
            Routes::Signin
        } else if str_equal(v, "/create_bucket/:bucket_name") {
            Routes::CreateBucket
        } else if str_equal(v, "/delete_bucket/:bucket_name") {
            Routes::DeleteBucket
        } else if str_equal(v, "/head_bucket/:bucket_name") {
            Routes::HeadBucket
        } else if str_equal(v, "/:bucket_name/*objectpath") {
            Routes::Object
        } else {
            Routes::Unknown
        }
    }
}

impl vstd::std_specs::convert::FromSpecImpl<String> for Routes {
    open spec fn obeys_from_spec() -> bool {
        true
    }

    open spec fn from_spec(v: String) -> Self {
        route_for_path(v@)
    }
}


/// The stored form of a password hashed with `salt`: the salt followed by
/// the PHC string of the hash, against which the password checks out; a
/// failure of the hasher is an internal error carrying its text.
pub fn salted_password(password: &[u8], salt: &str) -> (r: Result<String, ApiError>)
    ensures
        match argon2_hash_outcome(password@, salt@) {
            Ok(h) => r matches Ok(s) && s@ == salt@ + h && checks_out(password@, h),
            Err(m) => r matches Err(e) && e.status == 500 && e.message@ == m,
        },
{
    let hash = hash_with_salt(password, salt)?;
    let mut stored = String::from_str(salt);
    stored.append(hash.as_str());
    Ok(stored)
}

/// Hashes `password` with a fresh random salt; the stored form is the salt
/// followed by the PHC string of the hash, and a failure of the hasher is an
/// internal error carrying its text. The salt is a fresh 22-character B64
/// salt as `generate_salt` draws it; which one is left open.
pub fn encrypt_password(password: &[u8]) -> (r: Result<String, ApiError>)
    ensures
        exists|salt: Seq<char>|
            is_generated_salt(salt) && match #[trigger] argon2_hash_outcome(password@, salt) {
                Ok(h) => r matches Ok(s) && s@ == salt + h && checks_out(password@, h),
                Err(m) => r matches Err(e) && e.status == 500 && e.message@ == m,
            },
{
    let salt = generate_salt();
    let r = salted_password(password, salt.as_str());
    let ghost outcome = argon2_hash_outcome(password@, salt@);
    assert(match outcome {
        Ok(h) => r matches Ok(s) && s@ == salt@ + h && checks_out(password@, h),
        Err(m) => r matches Err(e) && e.status == 500 && e.message@ == m,
    });
    r
}

/// Reading an endpoint's own route pattern back gives that endpoint.
pub proof fn lemma_route_pattern_round_trip(r: Routes)
    ensures
        route_for_path(route_pattern(r)) == r,
{
    reveal_strlit("/signup");
    reveal_strlit("/signin");
    reveal_strlit("/create_bucket/:bucket_name");
    reveal_strlit("/delete_bucket/:bucket_name");
    reveal_strlit("/head_bucket/:bucket_name");
    reveal_strlit("/:bucket_name/*objectpath");
    reveal_strlit("/not-found");
    assert("/signin"@[5] != "/signup"@[5]);
    assert("/delete_bucket/:bucket_name"@[1] != "/create_bucket/:bucket_name"@[1]);
    assert("/:bucket_name/*objectpath"@[1] != "/head_bucket/:bucket_name"@[1]);
}

/// Where each endpoint is mounted: the account endpoints at fixed paths;
/// each bucket endpoint at its action followed by one captured segment,
/// the bucket name; and the object endpoint at the bucket name followed
/// by a wildcard that captures the whole object path, however many
/// segments it has.
pub proof fn lemma_route_patterns()
    ensures
        route_pattern(Routes::Signup) == "/signup"@,
        route_pattern(Routes::Signin) == "/signin"@,
        route_pattern(Routes::CreateBucket) == "/create_bucket/"@ + path_param("bucket_name"@),
        route_pattern(Routes::DeleteBucket) == "/delete_bucket/"@ + path_param("bucket_name"@),
        route_pattern(Routes::HeadBucket) == "/head_bucket/"@ + path_param("bucket_name"@),
        route_pattern(Routes::Object) == "/"@ + path_param("bucket_name"@) + "/"@ + path_wildcard(
            "objectpath"@,
        ),
        route_pattern(Routes::Unknown) == "/not-found"@,
{
    reveal_strlit("/");
    reveal_strlit("/:bucket_name/*objectpath");
    reveal_strlit("/create_bucket/");
    reveal_strlit("/create_bucket/:bucket_name");
    reveal_strlit("/delete_bucket/");
    reveal_strlit("/delete_bucket/:bucket_name");
    reveal_strlit("/head_bucket/");
    reveal_strlit("/head_bucket/:bucket_name");
    reveal_strlit("/not-found");
    reveal_strlit("/signin");
    reveal_strlit("/signup");
    reveal_strlit("bucket_name");
    reveal_strlit("objectpath");
    assert(route_pattern(Routes::CreateBucket) =~= "/create_bucket/"@ + path_param("bucket_name"@));
    assert(route_pattern(Routes::DeleteBucket) =~= "/delete_bucket/"@ + path_param("bucket_name"@));
    assert(route_pattern(Routes::HeadBucket) =~= "/head_bucket/"@ + path_param("bucket_name"@));
    assert(route_pattern(Routes::Object) =~= "/"@ + path_param("bucket_name"@) + "/"@ + path_wildcard(
        "objectpath"@,
    ));
}

} // verus!
