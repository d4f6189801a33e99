use rws::entra::Routes as Entra;
use rws::rws_s3::Routes as Combined;
use rws::s3::Routes as S3;
use rws::sso::Routes as Sso;
use rws::s3;

#[test]
fn storage_routes_read_back() {
    for r in [S3::Signup, S3::Signin, S3::CreateBucket, S3::DeleteBucket, S3::GetBucket, S3::Object] {
        assert_eq!(S3::from(r.as_str().to_string()), r);
    }
    assert_eq!(S3::CreateBucket.as_str(), "/create_bucket/:bucket_name");
    assert_eq!(S3::from("/create_bucket/photos".to_string()), S3::CreateBucket);
    assert_eq!(S3::from("/get_bucket/photos".to_string()), S3::GetBucket);
    assert_eq!(S3::from("/photos/a.txt".to_string()), S3::Object);
    assert_eq!(S3::from("/signupx".to_string()), S3::Signup);
}

#[test]
fn combined_storage_routes_read_back() {
    for r in [
        Combined::Signup,
        Combined::Signin,
        Combined::CreateBucket,
        Combined::DeleteBucket,
        Combined::HeadBucket,
        Combined::Object,
        Combined::Unknown,
    ] {
        assert_eq!(Combined::from(r.as_str().to_string()), r);
    }
    assert_eq!(Combined::Unknown.as_str(), "/not-found");
    assert_eq!(Combined::from("/signup/".to_string()), Combined::Unknown);
    assert_eq!(Combined::from("/create_bucket/photos".to_string()), Combined::Unknown);
}

#[test]
fn directory_routes_read_back() {
    for r in [
        Entra::CreateUser,
        Entra::ResetPwd,
        Entra::EnableUser,
        Entra::DisableUser,
        Entra::DeleteUser,
        Entra::SearchUser,
        Entra::GetUser,
        Entra::ModifyUser,
        Entra::Authorize,
    ] {
        assert_eq!(Entra::from(r.as_path().to_string()), r);
    }
    assert_eq!(Entra::from("/searchUser?name=bob".to_string()), Entra::SearchUser);
    assert_eq!(Entra::from("/anything".to_string()), Entra::GetUser);
    assert_eq!(Entra::from("/createUser/".to_string()), Entra::GetUser);
}

#[test]
fn sign_on_routes_read_back() {
    for r in [Sso::Signup, Sso::Signin] {
        assert_eq!(Sso::from(r.as_str().to_string()), r);
    }
    assert_eq!(Sso::from("/elsewhere".to_string()), Sso::Signin);
    assert_eq!(Sso::from("/signup?x=1".to_string()), Sso::Signup);
}

#[test]
fn requests_name_their_bucket() {
    assert_eq!(s3::bucket_for_request("/create_bucket/photos"), Some("photos".to_string()));
    assert_eq!(s3::bucket_for_request("/delete_bucket/photos"), Some("photos".to_string()));
    assert_eq!(s3::bucket_for_request("/get_bucket/photos"), Some("photos".to_string()));
    assert_eq!(s3::bucket_for_request("/photos/a/b.txt"), Some("photos".to_string()));
    assert_eq!(s3::bucket_for_request("/signin"), None);
    assert_eq!(s3::bucket_for_request("/signup"), None);
    assert!(!s3::has_bucket_segment("/create_bucket"));
    assert!(s3::has_bucket_segment("/create_bucket/"));
    assert!(!s3::has_bucket_segment(""));
    assert!(s3::has_bucket_segment("/signin"));
}
