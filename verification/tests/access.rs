use rws::permissions::{
    has_permission, permission_option_names, permissions_from_names, permit, Operation, Permission,
};

#[test]
fn permission_names() {
    assert_eq!(Permission::Owner.as_str(), Some("Owner"));
    assert_eq!(Permission::Read.as_str(), Some("Read"));
    assert_eq!(Permission::Write.as_str(), Some("Write"));
    assert_eq!(Permission::Uknonwn.as_str(), None);
    for p in Permission::iter() {
        if let Some(n) = p.as_str() {
            assert_eq!(Permission::from(n.to_string()), p);
        }
    }
    assert_eq!(Permission::from("owner".to_string()), Permission::Uknonwn);
    assert_eq!(Permission::from(String::new()), Permission::Uknonwn);
}

#[test]
fn every_permission_in_order() {
    assert_eq!(
        Permission::iter(),
        vec![Permission::Owner, Permission::Read, Permission::Write, Permission::Uknonwn]
    );
    assert_eq!(permission_option_names(), vec!["Owner", "Read", "Write"]);
}

#[test]
fn stored_names_to_permissions() {
    let names = vec!["Read".to_string(), "Admin".to_string(), "Owner".to_string()];
    assert_eq!(
        permissions_from_names(&names),
        vec![Permission::Read, Permission::Uknonwn, Permission::Owner]
    );
    assert!(permissions_from_names(&vec![]).is_empty());
    assert!(has_permission(&vec![Permission::Read], Permission::Read));
    assert!(!has_permission(&vec![Permission::Read], Permission::Write));
}

#[test]
fn operations_need_their_permissions() {
    let owner = vec![Permission::Owner];
    let read = vec![Permission::Read];
    let write = vec![Permission::Write];
    let owner_read = vec![Permission::Owner, Permission::Read];
    assert!(permit(Operation::DeleteBucket, &owner).is_ok());
    assert!(permit(Operation::DeleteBucket, &owner_read).is_ok());
    assert!(permit(Operation::HeadBucket, &owner).is_err());
    assert!(permit(Operation::HeadBucket, &owner_read).is_ok());
    assert!(permit(Operation::ReadBucket, &read).is_err());
    assert!(permit(Operation::CreateObject, &write).is_ok());
    assert!(permit(Operation::CreateObject, &read).is_err());
    assert!(permit(Operation::DeleteObject, &owner).is_ok());
    assert!(permit(Operation::ReadObject, &read).is_ok());
    assert!(permit(Operation::HeadObject, &write).is_err());
    // An owner may do every object operation.
    for op in [Operation::DeleteBucket, Operation::CreateObject, Operation::ReadObject, Operation::DeleteObject, Operation::HeadObject] {
        assert!(permit(op, &owner).is_ok());
    }
    // More permissions never take an operation away.
    for op in [Operation::DeleteBucket, Operation::HeadBucket, Operation::ReadBucket, Operation::CreateObject, Operation::ReadObject, Operation::DeleteObject, Operation::HeadObject] {
        if permit(op, &owner).is_ok() {
            assert!(permit(op, &vec![Permission::Write, Permission::Owner]).is_ok());
        }
    }
}

#[test]
fn refusals_say_what_was_refused() {
    let none: Vec<Permission> = vec![];
    let cases = [
        (Operation::DeleteBucket, "No permission to delete a bucket was granted"),
        (Operation::HeadBucket, "No permission to head a bucket was granted"),
        (Operation::ReadBucket, "No permission to delete a bucket was granted"),
        (Operation::CreateObject, "No permission to create an object was granted"),
        (Operation::ReadObject, "No permission to read an object was granted"),
        (Operation::DeleteObject, "No permission to delete an object was granted"),
        (Operation::HeadObject, "No permission to head an object was granted"),
    ];
    for (op, msg) in cases {
        let e = permit(op, &none).unwrap_err();
        assert_eq!(e.status, 401);
        assert_eq!(e.message, msg);
    }
}
