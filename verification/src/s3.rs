//! The storage service: its routes and how a request names its bucket.

use vstd::prelude::*;
use vstd::string::*;
use crate::headers::opt_string_view;
use crate::text::{
    free_of, has_prefix, join_with, lemma_differs_at, lemma_split_join, path_param, path_wildcard, split, split_on, starts_with,
};

verus! {

/// The endpoints of the storage service.
#[derive(PartialEq, Eq, Structural, Clone, Copy, Debug)]
pub enum Routes {
    Signup,
    Signin,
    CreateBucket,
    DeleteBucket,
    GetBucket,
    Object,
}

/// The route pattern under which each endpoint is mounted.
pub open spec fn route_pattern(r: Routes) -> Seq<char> {
    match r {
        Routes::Signup => "/signup"@,
        Routes::Signin => "/signin"@,
        Routes::CreateBucket => "/create_bucket/:bucket_name"@,
        Routes::DeleteBucket => "/delete_bucket/:bucket_name"@,
        Routes::GetBucket => "/get_bucket/:bucket_name"@,
        Routes::Object => "/:bucket_name/*objectpath"@,
    }
}

/// The endpoint a request path belongs to: the first known prefix wins,
/// and anything else addresses an object.
pub open spec fn route_for_path(p: Seq<char>) -> Routes {
    if has_prefix(p, "/signup"@) {
        Routes::Signup
    } else if has_prefix(p, "/signin"@) {
        Routes::Signin
    } else if has_prefix(p, "/create_bucket"@) {
        Routes::CreateBucket
    } else if has_prefix(p, "/delete_bucket"@) {
        Routes::DeleteBucket
    } else if has_prefix(p, "/get_bucket"@) {
        Routes::GetBucket
    } else {
        Routes::Object
    }
}

impl Routes {
    /// The route pattern of this endpoint.
    pub fn as_str(&self) -> (s: &'static str)
        ensures
            s@ == route_pattern(*self),
    {
        match self {
            Routes::Signup => "/signup",
            Routes::Signin => "/signin",
            Routes::CreateBucket => "/create_bucket/:bucket_name",
            Routes::DeleteBucket => "/delete_bucket/:bucket_name",
            Routes::GetBucket => "/get_bucket/:bucket_name",
            Routes::Object => "/:bucket_name/*objectpath",
        }
    }
}

impl From<String> for Routes {
    fn from(value: String) -> (r: Self) {
        let v = value.as_str();
        if starts_with(v, "/signup") {
            Routes::Signup
        } else if starts_with(v, "/signin") {
            Routes::Signin
        } else if starts_with(v, "/create_bucket") {
            Routes::CreateBucket
        } else if starts_with(v, "/delete_bucket") {
            Routes::DeleteBucket
        } else if starts_with(v, "/get_bucket") {
            Routes::GetBucket
        } else {
            Routes::Object
        }
    }
}

impl vstd::std_specs::convert::FromSpecImpl<String> for Routes {
    open spec fn obeys_from_spec() -> bool {
        true
    }

    open spec fn from_spec(v: String) -> Self {
        route_for_path(v@)
    }
}


/// Which `/`-separated piece of a request path names the bucket whose
/// permissions apply: the third for bucket endpoints, the second for objects;
/// the account endpoints need no permission.
pub open spec fn bucket_segment_of(r: Routes) -> Option<int> {
    match r {
        Routes::Signup | Routes::Signin => None,
        Routes::CreateBucket | Routes::DeleteBucket | Routes::GetBucket => Some(2),
        Routes::Object => Some(1),
    }
}

/// The request path has the piece that names its bucket, when it needs one.
pub open spec fn bucket_named(uri: Seq<char>) -> bool {
    match bucket_segment_of(route_for_path(uri)) {
        Some(k) => k < split_on(uri, '/').len(),
        None => true,
    }
}

/// The bucket whose permissions a request needs, or `None` for requests
/// that need no permission.
pub open spec fn request_bucket(uri: Seq<char>) -> Option<Seq<char>> {
    match bucket_segment_of(route_for_path(uri)) {
        Some(k) => Some(split_on(uri, '/')[k]),
        None => None,
    }
}

/// Whether the request path has the piece that names its bucket, when it
/// needs one.
pub fn has_bucket_segment(uri: &str) -> (r: bool)
    ensures
        r == bucket_named(uri@),
{
    let route = Routes::from(String::from_str(uri));
    let pieces = split(uri, '/');
    proof {
        assert(pieces@.len() == split_on(uri@, '/').len());
    }
    match route {
        Routes::Signup | Routes::Signin => true,
        Routes::CreateBucket | Routes::DeleteBucket | Routes::GetBucket => 2 < pieces.len(),
        Routes::Object => 1 < pieces.len(),
    }
}

/// The bucket whose permissions a request to `uri` needs.
pub fn bucket_for_request(uri: &str) -> (r: Option<String>)
    requires
        bucket_named(uri@),
    ensures
        opt_string_view(r) == request_bucket(uri@),
{
    let route = Routes::from(String::from_str(uri));
    let pieces = split(uri, '/');
    proof {
        assert(pieces@.len() == split_on(uri@, '/').len());
    }
    match route {
        Routes::Signup | Routes::Signin => None,
        Routes::CreateBucket | Routes::DeleteBucket | Routes::GetBucket => {
            assert(pieces@[2]@ == split_on(uri@, '/')[2]);
            Some(pieces[2].clone())
        },
        Routes::Object => {
            assert(pieces@[1]@ == split_on(uri@, '/')[1]);
            Some(pieces[1].clone())
        },
    }
}

/// Reading an endpoint's own route pattern back gives that endpoint.
pub proof fn lemma_route_pattern_round_trip(r: Routes)
    ensures
        route_for_path(route_pattern(r)) == r,
{
    reveal_strlit("/signup");
    reveal_strlit("/signin");
    reveal_strlit("/create_bucket");
    reveal_strlit("/delete_bucket");
    reveal_strlit("/get_bucket");
    reveal_strlit("/create_bucket/:bucket_name");
    reveal_strlit("/delete_bucket/:bucket_name");
    reveal_strlit("/get_bucket/:bucket_name");
    reveal_strlit("/:bucket_name/*objectpath");
    let p = route_pattern(r);
    match r {
        Routes::Signup => {
            assert(p.subrange(0, 7) =~= "/signup"@);
        },
        Routes::Signin => {
            lemma_differs_at(p, "/signup"@, 5);
            assert(p.subrange(0, 7) =~= "/signin"@);
        },
        Routes::CreateBucket => {
            lemma_differs_at(p, "/signup"@, 1);
            lemma_differs_at(p, "/signin"@, 1);
            assert(p.subrange(0, 14) =~= "/create_bucket"@);
        },
        Routes::DeleteBucket => {
            lemma_differs_at(p, "/signup"@, 1);
            lemma_differs_at(p, "/signin"@, 1);
            lemma_differs_at(p, "/create_bucket"@, 1);
            assert(p.subrange(0, 14) =~= "/delete_bucket"@);
        },
        Routes::GetBucket => {
            lemma_differs_at(p, "/signup"@, 1);
            lemma_differs_at(p, "/signin"@, 1);
            lemma_differs_at(p, "/create_bucket"@, 1);
            lemma_differs_at(p, "/delete_bucket"@, 1);
            assert(p.subrange(0, 11) =~= "/get_bucket"@);
        },
        Routes::Object => {
            lemma_differs_at(p, "/signup"@, 1);
            lemma_differs_at(p, "/signin"@, 1);
            lemma_differs_at(p, "/create_bucket"@, 1);
            lemma_differs_at(p, "/delete_bucket"@, 1);
            lemma_differs_at(p, "/get_bucket"@, 1);
        },
    }
}

/// Where each endpoint is mounted: the account endpoints at fixed paths;
/// each bucket endpoint at its action followed by one captured segment,
/// the bucket name; and the object endpoint at the bucket name followed
/// by a wildcard that captures the whole object path, however many
/// segments it has.
pub proof fn lemma_route_patterns()
    ensures
        route_pattern(Routes::Signup) == "/signup"@,
        route_pattern(Routes::Signin) == "/signin"@,
        route_pattern(Routes::CreateBucket) == "/create_bucket/"@ + path_param("bucket_name"@),
        route_pattern(Routes::DeleteBucket) == "/delete_bucket/"@ + path_param("bucket_name"@),
        route_pattern(Routes::GetBucket) == "/get_bucket/"@ + path_param("bucket_name"@),
        route_pattern(Routes::Object) == "/"@ + path_param("bucket_name"@) + "/"@ + path_wildcard(
            "objectpath"@,
        ),
{
    reveal_strlit("/");
    reveal_strlit("/:bucket_name/*objectpath");
    reveal_strlit("/create_bucket/");
    reveal_strlit("/create_bucket/:bucket_name");
    reveal_strlit("/delete_bucket/");
    reveal_strlit("/delete_bucket/:bucket_name");
    reveal_strlit("/get_bucket/");
    reveal_strlit("/get_bucket/:bucket_name");
    reveal_strlit("/signin");
    reveal_strlit("/signup");
    reveal_strlit("bucket_name");
    reveal_strlit("objectpath");
    assert(route_pattern(Routes::CreateBucket) =~= "/create_bucket/"@ + path_param("bucket_name"@));
    assert(route_pattern(Routes::DeleteBucket) =~= "/delete_bucket/"@ + path_param("bucket_name"@));
    assert(route_pattern(Routes::GetBucket) =~= "/get_bucket/"@ + path_param("bucket_name"@));
    assert(route_pattern(Routes::Object) =~= "/"@ + path_param("bucket_name"@) + "/"@ + path_wildcard(
        "objectpath"@,
    ));
}

/// Where a request names its bucket. For a request path written as pieces
/// joined by `/` (none holding a `/` itself): an object request names its
/// bucket in the second piece, the one right after the leading `/`; a
/// bucket request names it in the third, the one after the action; the
/// account requests need no bucket. A request without that piece names no
/// bucket.
pub proof fn lemma_request_bucket_piece(segs: Seq<Seq<char>>)
    requires
        segs.len() >= 1,
        forall|k: int| 0 <= k < segs.len() ==> free_of(#[trigger] segs[k], '/'),
    ensures
        route_for_path(join_with(segs, '/')) == Routes::Object ==> (bucket_named(
            join_with(segs, '/'),
        ) <==> segs.len() >= 2) && (segs.len() >= 2 ==> request_bucket(join_with(segs, '/'))
            == Some(segs[1])),
        route_for_path(join_with(segs, '/')) == Routes::CreateBucket || route_for_path(
            join_with(segs, '/'),
        ) == Routes::DeleteBucket || route_for_path(join_with(segs, '/')) == Routes::GetBucket ==> (
        bucket_named(join_with(segs, '/')) <==> segs.len() >= 3) && (segs.len() >= 3
            ==> request_bucket(join_with(segs, '/')) == Some(segs[2])),
        route_for_path(join_with(segs, '/')) == Routes::Signup || route_for_path(
            join_with(segs, '/'),
        ) == Routes::Signin ==> bucket_named(join_with(segs, '/')) && request_bucket(
            join_with(segs, '/'),
        ) is None,
{
    lemma_split_join(segs, '/');
}

} // verus!
