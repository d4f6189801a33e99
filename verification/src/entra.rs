//! The user directory service: its routes.

use vstd::prelude::*;
use vstd::string::*;
use crate::text::{has_prefix, starts_with, str_equal};

verus! {

/// The endpoints of the user directory service.
#[derive(PartialEq, Eq, Structural, Clone, Copy, Debug)]
pub enum Routes {
    CreateUser,
    ResetPwd,
    EnableUser,
    DisableUser,
    DeleteUser,
    SearchUser,
    GetUser,
    ModifyUser,
    Authorize,
}

/// The path under which each endpoint is mounted.
pub open spec fn route_path(r: Routes) -> Seq<char> {
    match r {
        Routes::CreateUser => "/createUser"@,
        Routes::ResetPwd => "/resetPwd"@,
        Routes::EnableUser => "/enableUser"@,
        Routes::DisableUser => "/disableUser"@,
        Routes::DeleteUser => "/deleteUser"@,
        Routes::SearchUser => "/searchUser"@,
        Routes::GetUser => "/getUser"@,
        Routes::ModifyUser => "/modifyUser"@,
        Routes::Authorize => "/authorize"@,
    }
}

/// The endpoint a request path belongs to: exact paths first, then any
/// path beginning with `/searchUser` searches, and anything else gets a
/// user.
pub open spec fn route_for_path(p: Seq<char>) -> Routes {
    if p == "/createUser"@ {
        Routes::CreateUser
    } else if p == "/resetPwd"@ {
        Routes::ResetPwd
    } else if p == "/enableUser"@ {
        Routes::EnableUser
    } else if p == "/disableUser"@ {
        Routes::DisableUser
    } else if p == "/deleteUser"@ {
        Routes::DeleteUser
    } else if p == "/modifyUser"@ {
        Routes::ModifyUser
    } else if p == "/authorize"@ {
        Routes::Authorize
    } else if has_prefix(p, "/searchUser"@) {
        Routes::SearchUser
    } else {
        Routes::GetUser
    }
}

impl Routes {
    /// The path of this endpoint.
    pub fn as_path(&self) -> (s: &'static str)
        ensures
            s@ == route_path(*self),
    {
        match self {
            Routes::CreateUser => "/createUser",
            Routes::ResetPwd => "/resetPwd",
            Routes::EnableUser => "/enableUser",
            Routes::DisableUser => "/disableUser",
            Routes::DeleteUser => "/deleteUser",
            Routes::SearchUser => "/searchUser",
            Routes::GetUser => "/getUser",
            Routes::ModifyUser => "/modifyUser",
            Routes::Authorize => "/authorize",
        }
    }
}

impl From<String> for Routes {
    fn from(value: String) -> (r: Self) {
        let v = value.as_str();
        if str_equal(v, "/createUser") {
            Routes::CreateUser
        } else if str_equal(v, "/resetPwd") {
            Routes::ResetPwd
        } else if str_equal(v, "/enableUser") {
            Routes::EnableUser
        } else if str_equal(v, "/disableUser") {
            Routes::DisableUser
        } else if str_equal(v, "/deleteUser") {
            Routes::DeleteUser
        } else if str_equal(v, "/modifyUser") {
            Routes::ModifyUser
        } else if str_equal(v, "/authorize") {
            Routes::Authorize
        } else if starts_with(v, "/searchUser") {
            Routes::SearchUser
        } else {
            Routes::GetUser
        }
    }
}

impl vstd::std_specs::convert::FromSpecImpl<String> for Routes {
    open spec fn obeys_from_spec() -> bool {
        true
    }

    open spec fn from_spec(v: String) -> Self {
        route_for_path(v@)
    }
}

/// Reading an endpoint's own path back gives that endpoint.
pub proof fn lemma_route_path_round_trip(r: Routes)
    ensures
        route_for_path(route_path(r)) == r,
{
    reveal_strlit("/createUser");
    reveal_strlit("/resetPwd");
    reveal_strlit("/enableUser");
    reveal_strlit("/disableUser");
    reveal_strlit("/deleteUser");
    reveal_strlit("/searchUser");
    reveal_strlit("/getUser");
    reveal_strlit("/modifyUser");
    reveal_strlit("/authorize");
    let p = route_path(r);
    assert(p == "/createUser"@ ==> r == Routes::CreateUser) by {
        if r != Routes::CreateUser {
            assert(p.len() != 11 || p[1] != "/createUser"@[1]);
        }
    }
    assert(p == "/enableUser"@ ==> r == Routes::EnableUser) by {
        if r != Routes::EnableUser {
            assert(p.len() != 11 || p[1] != "/enableUser"@[1]);
        }
    }
    assert(p == "/deleteUser"@ ==> r == Routes::DeleteUser) by {
        if r != Routes::DeleteUser {
            assert(p.len() != 11 || p[1] != "/deleteUser"@[1]);
        }
    }
    assert(p == "/modifyUser"@ ==> r == Routes::ModifyUser) by {
        if r != Routes::ModifyUser {
            assert(p.len() != 11 || p[1] != "/modifyUser"@[1]);
        }
    }
    if r == Routes::SearchUser {
        assert(p.subrange(0, 11) =~= "/searchUser"@);
    }
    if r == Routes::GetUser {
        assert(!has_prefix(p, "/searchUser"@));
    }
}

/// Where each endpoint of the user directory is mounted: at `/` followed
/// by the endpoint's name.
pub proof fn lemma_route_paths()
    ensures
        route_path(Routes::CreateUser) == "/"@ + "createUser"@,
        route_path(Routes::ResetPwd) == "/"@ + "resetPwd"@,
        route_path(Routes::EnableUser) == "/"@ + "enableUser"@,
        route_path(Routes::DisableUser) == "/"@ + "disableUser"@,
        route_path(Routes::DeleteUser) == "/"@ + "deleteUser"@,
        route_path(Routes::SearchUser) == "/"@ + "searchUser"@,
        route_path(Routes::GetUser) == "/"@ + "getUser"@,
        route_path(Routes::ModifyUser) == "/"@ + "modifyUser"@,
        route_path(Routes::Authorize) == "/"@ + "authorize"@,
{
    reveal_strlit("/");
    reveal_strlit("createUser");
    reveal_strlit("/createUser");
    assert(route_path(Routes::CreateUser) =~= "/"@ + "createUser"@);
    reveal_strlit("resetPwd");
    reveal_strlit("/resetPwd");
    assert(route_path(Routes::ResetPwd) =~= "/"@ + "resetPwd"@);
    reveal_strlit("enableUser");
    reveal_strlit("/enableUser");
    assert(route_path(Routes::EnableUser) =~= "/"@ + "enableUser"@);
    reveal_strlit("disableUser");
    reveal_strlit("/disableUser");
    assert(route_path(Routes::DisableUser) =~= "/"@ + "disableUser"@);
    reveal_strlit("deleteUser");
    reveal_strlit("/deleteUser");
    assert(route_path(Routes::DeleteUser) =~= "/"@ + "deleteUser"@);
    reveal_strlit("searchUser");
    reveal_strlit("/searchUser");
    assert(route_path(Routes::SearchUser) =~= "/"@ + "searchUser"@);
    reveal_strlit("getUser");
    reveal_strlit("/getUser");
    assert(route_path(Routes::GetUser) =~= "/"@ + "getUser"@);
    reveal_strlit("modifyUser");
    reveal_strlit("/modifyUser");
    assert(route_path(Routes::ModifyUser) =~= "/"@ + "modifyUser"@);
    reveal_strlit("authorize");
    reveal_strlit("/authorize");
    assert(route_path(Routes::Authorize) =~= "/"@ + "authorize"@);
}

} // verus!
