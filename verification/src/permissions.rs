//! Bucket permissions and which of them each bucket or object operation needs.

use vstd::prelude::*;
use vstd::string::*;
use crate::error::{ApiError, STATUS_UNAUTHORIZED};
use crate::text::str_equal;

verus! {

/// A permission a user holds on a bucket.
#[derive(Debug, Clone, Copy, PartialEq, Eq, Structural)]
pub enum Permission {
    Write,
    Read,
    Owner,
    Uknonwn,
}

/// The name under which a permission is stored; the unknown permission has
/// none.
pub open spec fn permission_name(p: Permission) -> Option<Seq<char>> {
    match p {
        Permission::Owner => Some("Owner"@),
        Permission::Read => Some("Read"@),
        Permission::Write => Some("Write"@),
        Permission::Uknonwn => None,
    }
}

/// The permission a stored name stands for; any name other than the three
/// known ones stands for the unknown permission.
pub open spec fn permission_named(s: Seq<char>) -> Permission {
    if s == "Write"@ {
        Permission::Write
    } else if s == "Read"@ {
        Permission::Read
    } else if s == "Owner"@ {
        Permission::Owner
    } else {
        Permission::Uknonwn
    }
}

pub open spec fn opt_str_view(o: Option<&str>) -> Option<Seq<char>> {
    match o {
        Some(s) => Some(s@),
        None => None,
    }
}

/// Every permission, in the order in which options are created.
pub open spec fn all_permissions() -> Seq<Permission> {
    seq![Permission::Owner, Permission::Read, Permission::Write, Permission::Uknonwn]
}

impl Permission {
    /// The stored name of this permission.
    pub fn as_str(&self) -> (r: Option<&'static str>)
        ensures
            opt_str_view(r) == permission_name(*self),
    {
        match self {
            Permission::Owner => Some("Owner"),
            Permission::Read => Some("Read"),
            Permission::Write => Some("Write"),
            Permission::Uknonwn => None,
        }
    }

    /// Every permission: Owner, Read, Write and the unknown one.
    pub fn iter() -> (r: Vec<Permission>)
        ensures
            r@ == all_permissions(),
    {
        let mut v = Vec::new();
        v.push(Permission::Owner);
        v.push(Permission::Read);
        v.push(Permission::Write);
        v.push(Permission::Uknonwn);
        assert(v@ =~= all_permissions());
        v
    }
}

impl From<String> for Permission {
    fn from(value: String) -> (r: Self) {
        let v = value.as_str();
        if str_equal(v, "Write") {
            Permission::Write
        } else if str_equal(v, "Read") {
            Permission::Read
        } else if str_equal(v, "Owner") {
            Permission::Owner
        } else {
            Permission::Uknonwn
        }
    }
}

impl vstd::std_specs::convert::FromSpecImpl<String> for Permission {
    open spec fn obeys_from_spec() -> bool {
        true
    }

    open spec fn from_spec(v: String) -> Self {
        permission_named(v@)
    }
}

/// The names of the permission options to create: the stored names of all
/// permissions, in order, leaving out the unknown one.
pub open spec fn option_names(ps: Seq<Permission>) -> Seq<Seq<char>>
    decreases ps.len(),
{
    if ps.len() == 0 {
        Seq::empty()
    } else {
        let init = option_names(ps.drop_last());
        match permission_name(ps.last()) {
            Some(n) => init.push(n),
            None => init,
        }
    }
}

/// The names under which permission options are created when the service
/// starts: `Owner`, `Read`, `Write`.
pub fn permission_option_names() -> (r: Vec<&'static str>)
    ensures
        r@.map_values(|s: &str| s@) == option_names(all_permissions()),
{
    let all = Permission::iter();
    let mut names: Vec<&'static str> = Vec::new();
    let mut i: usize = 0;
    while i < all.len()
        invariant
            all@ == all_permissions(),
            i <= all@.len(),
            names@.map_values(|s: &str| s@) == option_names(all@.subrange(0, i as int)),
        decreases all@.len() - i,
    {
        assert(all@.subrange(0, i + 1).drop_last() =~= all@.subrange(0, i as int));
        if let Some(n) = all[i].as_str() {
            names.push(n);
        }
        assert(names@.map_values(|s: &str| s@) =~= option_names(all@.subrange(0, i + 1)));
        i += 1;
    }
    assert(all@.subrange(0, all@.len() as int) =~= all@);
    names
}

/// The permissions that stored names stand for, one for each name.
pub fn permissions_from_names(names: &Vec<String>) -> (r: Vec<Permission>)
    ensures
        r@ == names@.map_values(|s: String| permission_named(s@)),
{
    let mut r: Vec<Permission> = Vec::new();
    let mut i: usize = 0;
    while i < names.len()
        invariant
            i <= names@.len(),
            r@ == names@.subrange(0, i as int).map_values(|s: String| permission_named(s@)),
        decreases names@.len() - i,
    {
        r.push(Permission::from(names[i].clone()));
        assert(r@ =~= names@.subrange(0, i + 1).map_values(|s: String| permission_named(s@)));
        i += 1;
    }
    assert(names@.subrange(0, names@.len() as int) =~= names@);
    r
}

/// Whether `p` is among `perms`.
pub fn has_permission(perms: &Vec<Permission>, p: Permission) -> (r: bool)
    ensures
        r == perms@.contains(p),
{
    let mut i: usize = 0;
    while i < perms.len()
        invariant
            i <= perms@.len(),
            forall|j: int| 0 <= j < i ==> perms@[j] != p,
        decreases perms@.len() - i,
    {
        if perms[i] == p {
            assert(perms@[i as int] == p);
            return true;
        }
        i += 1;
    }
    false
}

/// An operation on a bucket or on an object in it.
#[derive(Debug, Clone, Copy, PartialEq, Eq, Structural)]
pub enum Operation {
    DeleteBucket,
    HeadBucket,
    ReadBucket,
    CreateObject,
    ReadObject,
    DeleteObject,
    HeadObject,
}

/// Whether the permissions `perms` allow `op`: deleting a bucket takes
/// Owner; heading or listing a bucket takes both Owner and Read; creating or
/// deleting an object takes Owner or Write; reading or heading an object
/// takes Owner or Read.
pub open spec fn allows(op: Operation, perms: Seq<Permission>) -> bool {
    match op {
        Operation::DeleteBucket => perms.contains(Permission::Owner),
        Operation::HeadBucket | Operation::ReadBucket => perms.contains(Permission::Owner)
            && perms.contains(Permission::Read),
        Operation::CreateObject | Operation::DeleteObject => perms.contains(Permission::Owner)
            || perms.contains(Permission::Write),
        Operation::ReadObject | Operation::HeadObject => perms.contains(Permission::Owner)
            || perms.contains(Permission::Read),
    }
}

/// The message a refused operation is answered with.
pub open spec fn refusal_message(op: Operation) -> Seq<char> {
    match op {
        Operation::DeleteBucket => "No permission to delete a bucket was granted"@,
        Operation::HeadBucket => "No permission to head a bucket was granted"@,
        Operation::ReadBucket => "No permission to delete a bucket was granted"@,
        Operation::CreateObject => "No permission to create an object was granted"@,
        Operation::ReadObject => "No permission to read an object was granted"@,
        Operation::DeleteObject => "No permission to delete an object was granted"@,
        Operation::HeadObject => "No permission to head an object was granted"@,
    }
}

/// Admits `op` when `perms` allow it, and otherwise refuses it as
/// unauthorized with the operation's message.
pub fn permit(op: Operation, perms: &Vec<Permission>) -> (r: Result<(), ApiError>)
    ensures
        r is Ok <==> allows(op, perms@),
        r matches Err(e) ==> e.status == STATUS_UNAUTHORIZED && e.message@ == refusal_message(op),
        op == Operation::DeleteBucket ==> (r is Ok <==> perms@.contains(Permission::Owner)),
        op == Operation::HeadBucket || op == Operation::ReadBucket ==> (r is Ok <==> (
        perms@.contains(Permission::Owner) && perms@.contains(Permission::Read))),
        op == Operation::CreateObject || op == Operation::DeleteObject ==> (r is Ok <==> (
        perms@.contains(Permission::Owner) || perms@.contains(Permission::Write))),
        op == Operation::ReadObject || op == Operation::HeadObject ==> (r is Ok <==> (
        perms@.contains(Permission::Owner) || perms@.contains(Permission::Read))),
{
    let owner = has_permission(perms, Permission::Owner);
    let allowed = match op {
        Operation::DeleteBucket => owner,
        Operation::HeadBucket | Operation::ReadBucket => owner && has_permission(
            perms,
            Permission::Read,
        ),
        Operation::CreateObject | Operation::DeleteObject => owner || has_permission(
            perms,
            Permission::Write,
        ),
        Operation::ReadObject | Operation::HeadObject => owner || has_permission(
            perms,
            Permission::Read,
        ),
    };
    if allowed {
        return Ok(());
    }
    let message = match op {
        Operation::DeleteBucket => "No permission to delete a bucket was granted",
        Operation::HeadBucket => "No permission to head a bucket was granted",
        Operation::ReadBucket => "No permission to delete a bucket was granted",
        Operation::CreateObject => "No permission to create an object was granted",
        Operation::ReadObject => "No permission to read an object was granted",
        Operation::DeleteObject => "No permission to delete an object was granted",
        Operation::HeadObject => "No permission to head an object was granted",
    };
    Err(ApiError::new(STATUS_UNAUTHORIZED, message))
}

/// A known permission's stored name reads back as that permission, and the
/// unknown permission has no name.
pub proof fn lemma_permission_name_round_trip(p: Permission)
    ensures
        permission_name(p) is None <==> p == Permission::Uknonwn,
        permission_name(p) matches Some(n) ==> permission_named(n) == p,
{
    reveal_strlit("Write");
    reveal_strlit("Read");
    reveal_strlit("Owner");
    assert("Write"@ != "Read"@) by {
        assert("Write"@.len() != "Read"@.len());
    }
    assert("Write"@ != "Owner"@) by {
        assert("Write"@[0] != "Owner"@[0]);
    }
    assert("Read"@ != "Owner"@) by {
        assert("Read"@.len() != "Owner"@.len());
    }
}

/// The permission options created at start-up are exactly Owner, Read and
/// Write.
pub proof fn lemma_option_names()
    ensures
        option_names(all_permissions()) == seq!["Owner"@, "Read"@, "Write"@],
{
    let a = all_permissions();
    assert(a.drop_last() =~= seq![Permission::Owner, Permission::Read, Permission::Write]);
    assert(a.drop_last().drop_last() =~= seq![Permission::Owner, Permission::Read]);
    assert(a.drop_last().drop_last().drop_last() =~= seq![Permission::Owner]);
    assert(a.drop_last().drop_last().drop_last().drop_last() =~= Seq::<Permission>::empty());
    reveal_with_fuel(option_names, 5);
    assert(option_names(a) =~= seq!["Owner"@, "Read"@, "Write"@]);
}

/// Holding more permissions never takes an operation away.
pub proof fn lemma_allows_monotone(op: Operation, fewer: Seq<Permission>, more: Seq<Permission>)
    requires
        forall|p: Permission| fewer.contains(p) ==> more.contains(p),
        allows(op, fewer),
    ensures
        allows(op, more),
{
}

/// An owner may delete its bucket and create, read, delete and head the
/// objects in it, whatever else it holds.
pub proof fn lemma_owner_allows(perms: Seq<Permission>)
    requires
        perms.contains(Permission::Owner),
    ensures
        allows(Operation::DeleteBucket, perms),
        allows(Operation::CreateObject, perms),
        allows(Operation::ReadObject, perms),
        allows(Operation::DeleteObject, perms),
        allows(Operation::HeadObject, perms),
{
}

/// What each operation needs, whatever else is held: deleting a bucket
/// needs Owner; heading or listing a bucket needs Owner and Read together;
/// creating or deleting an object needs Owner or Write; reading or heading
/// an object needs Owner or Read.
pub proof fn lemma_operation_needs(perms: Seq<Permission>)
    ensures
        allows(Operation::DeleteBucket, perms) <==> perms.contains(Permission::Owner),
        allows(Operation::HeadBucket, perms) <==> perms.contains(Permission::Owner)
            && perms.contains(Permission::Read),
        allows(Operation::ReadBucket, perms) <==> perms.contains(Permission::Owner)
            && perms.contains(Permission::Read),
        allows(Operation::CreateObject, perms) <==> perms.contains(Permission::Owner)
            || perms.contains(Permission::Write),
        allows(Operation::DeleteObject, perms) <==> perms.contains(Permission::Owner)
            || perms.contains(Permission::Write),
        allows(Operation::ReadObject, perms) <==> perms.contains(Permission::Owner)
            || perms.contains(Permission::Read),
        allows(Operation::HeadObject, perms) <==> perms.contains(Permission::Owner)
            || perms.contains(Permission::Read),
{
}

/// Reading and heading an object need the same permissions, and so do
/// creating and deleting one, and heading and listing a bucket.
pub proof fn lemma_paired_operations(perms: Seq<Permission>)
    ensures
        allows(Operation::ReadObject, perms) == allows(Operation::HeadObject, perms),
        allows(Operation::CreateObject, perms) == allows(Operation::DeleteObject, perms),
        allows(Operation::HeadBucket, perms) == allows(Operation::ReadBucket, perms),
{
}

/// Write does not stand in for Read: without Owner and Read an object can
/// be neither read nor headed, and without Owner a bucket can be neither
/// deleted, headed nor listed. Read does not stand in for Write: without
/// Owner and Write no object can be created or deleted.
pub proof fn lemma_missing_permissions_refuse(perms: Seq<Permission>)
    ensures
        !perms.contains(Permission::Owner) && !perms.contains(Permission::Read) ==> !allows(
            Operation::ReadObject,
            perms,
        ) && !allows(Operation::HeadObject, perms),
        !perms.contains(Permission::Owner) ==> !allows(Operation::DeleteBucket, perms) && !allows(
            Operation::HeadBucket,
            perms,
        ) && !allows(Operation::ReadBucket, perms),
        !perms.contains(Permission::Read) ==> !allows(Operation::HeadBucket, perms) && !allows(
            Operation::ReadBucket,
            perms,
        ),
        !perms.contains(Permission::Owner) && !perms.contains(Permission::Write) ==> !allows(
            Operation::CreateObject,
            perms,
        ) && !allows(Operation::DeleteObject, perms),
{
}

/// Every refusal names what was not granted: `No permission to `, the
/// action, ` was granted`. Listing a bucket is refused with the words for
/// deleting one.
pub proof fn lemma_refusal_messages()
    ensures
        refusal_message(Operation::DeleteBucket) == "No permission to "@ + "delete a bucket"@
            + " was granted"@,
        refusal_message(Operation::HeadBucket) == "No permission to "@ + "head a bucket"@
            + " was granted"@,
        refusal_message(Operation::ReadBucket) == "No permission to "@ + "delete a bucket"@
            + " was granted"@,
        refusal_message(Operation::CreateObject) == "No permission to "@ + "create an object"@
            + " was granted"@,
        refusal_message(Operation::ReadObject) == "No permission to "@ + "read an object"@
            + " was granted"@,
        refusal_message(Operation::DeleteObject) == "No permission to "@ + "delete an object"@
            + " was granted"@,
        refusal_message(Operation::HeadObject) == "No permission to "@ + "head an object"@
            + " was granted"@,
{
    reveal_strlit("No permission to ");
    reveal_strlit(" was granted");
    reveal_strlit("delete a bucket");
    reveal_strlit("head a bucket");
    reveal_strlit("create an object");
    reveal_strlit("read an object");
    reveal_strlit("delete an object");
    reveal_strlit("head an object");
    reveal_strlit("No permission to delete a bucket was granted");
    reveal_strlit("No permission to head a bucket was granted");
    reveal_strlit("No permission to create an object was granted");
    reveal_strlit("No permission to read an object was granted");
    reveal_strlit("No permission to delete an object was granted");
    reveal_strlit("No permission to head an object was granted");
    assert(refusal_message(Operation::DeleteBucket) =~= "No permission to "@ + "delete a bucket"@
        + " was granted"@);
    assert(refusal_message(Operation::HeadBucket) =~= "No permission to "@ + "head a bucket"@
        + " was granted"@);
    assert(refusal_message(Operation::CreateObject) =~= "No permission to "@ + "create an object"@
        + " was granted"@);
    assert(refusal_message(Operation::ReadObject) =~= "No permission to "@ + "read an object"@
        + " was granted"@);
    assert(refusal_message(Operation::DeleteObject) =~= "No permission to "@ + "delete an object"@
        + " was granted"@);
    assert(refusal_message(Operation::HeadObject) =~= "No permission to "@ + "head an object"@
        + " was granted"@);
}

} // verus!
