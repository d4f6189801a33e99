use rws::accounts::{
    signin_field, signup_field, user_not_found, username_taken, SigninField, SigninForm, SignupField,
    SignupForm,
};
use rws::passwords::hash_with_salt;
use rws::session::{
    check_token, claims_now, make_claims, session_cookie, signin_body, TokenErrorKind,
    TOKEN_LIFETIME_SECS,
};
use rws::{rws_s3, sso};

#[test]
fn stored_password_begins_with_its_salt() {
    let salt = "c2FsdHNhbHRzYWx0";
    let stored = rws_s3::salted_password(b"hunter42", salt).ok().unwrap();
    assert!(stored.starts_with(salt));
    let hash = hash_with_salt(b"hunter42", salt).ok().unwrap();
    assert_eq!(stored, format!("{}{}", salt, hash));
    assert!(hash.starts_with("$argon2id$"));
    assert_ne!(hash, hash_with_salt(b"hunter43", salt).ok().unwrap());
}

#[test]
fn hashing_with_a_bad_salt_is_an_internal_error() {
    let e = hash_with_salt(b"pw", "!").err().unwrap();
    assert_eq!(e.status, 500);
    assert!(!e.message.is_empty());
    let e = rws_s3::salted_password(b"pw", "").err().unwrap();
    assert_eq!(e.status, 500);
}

#[test]
fn fresh_salts_make_fresh_hashes() {
    let a = rws_s3::encrypt_password(b"pw").ok().unwrap();
    let b = rws_s3::encrypt_password(b"pw").ok().unwrap();
    assert_ne!(a, b);
    let pos = a.find("$argon2id$").unwrap();
    assert_eq!(pos, 22);
    assert!(a[..22].chars().all(|c| c.is_ascii_alphanumeric() || c == '+' || c == '/'));
    assert!(matches!(a.as_bytes()[21], b'A' | b'Q' | b'g' | b'w'));
    let rest = &a[22..];
    assert_eq!(sso::compare_passwords(b"pw", rest.to_string()).ok(), Some(true));
}

#[test]
fn phc_salt_is_canonical_b64() {
    let stored = sso::encrypt_password(b"pw").ok().unwrap();
    let salt = stored.split('$').nth(4).unwrap();
    assert_eq!(salt.len(), 22);
    assert!(matches!(salt.as_bytes()[21], b'A' | b'Q' | b'g' | b'w'));
}

#[test]
fn signin_rejects_only_an_unreadable_stored_hash() {
    let stored = sso::encrypt_password(b"correct horse").ok().unwrap();
    assert!(sso::verify_stored_password(b"correct horse", stored.clone()).is_ok());
    assert!(sso::verify_stored_password(b"wrong", stored).is_ok());
    let e = sso::verify_stored_password(b"x", "not a hash".to_string()).err().unwrap();
    assert_eq!(e.status, 500);
    assert!(!e.message.is_empty());
}

#[test]
fn session_cookie_text() {
    assert_eq!(
        session_cookie("abc"),
        "token=abc; HttpOnly; SameSite=Lax; Path=/; Max-Age=2592000"
    );
}

#[test]
fn signin_body_text() {
    assert_eq!(signin_body("abc"), "{\"status\":\"success\",\"token\":\"abc\"}");
    assert_eq!(signin_body("a\"b"), "{\"status\":\"success\",\"token\":\"a\\\"b\"}");
}

#[test]
fn a_password_checks_out_against_its_hash() {
    let stored = sso::encrypt_password(b"correct horse").ok().unwrap();
    assert!(stored.starts_with("$argon2id$"));
    assert_eq!(sso::compare_passwords(b"correct horse", stored.clone()).ok(), Some(true));
    assert_eq!(sso::compare_passwords(b"wrong", stored).ok(), Some(false));
    let e = sso::compare_passwords(b"x", "not a hash".to_string()).err().unwrap();
    assert_eq!(e.status, 500);
}

#[test]
fn signup_form() {
    assert_eq!(signup_field("username"), Some(SignupField::Username));
    assert_eq!(signup_field("password"), Some(SignupField::Password));
    assert_eq!(signup_field("email"), Some(SignupField::Email));
    assert_eq!(signup_field("other"), None);
    let mut f = SignupForm::new();
    let e = f.validate().err().unwrap();
    assert_eq!(e.status, 400);
    assert_eq!(e.message, "Username or password or email were not specified");
    f.set(SignupField::Username, "bob".to_string());
    f.set(SignupField::Password, "pw".to_string());
    assert!(f.validate().is_err());
    f.set(SignupField::Email, "bob@example.com".to_string());
    assert!(f.validate().is_ok());
    f.set(SignupField::Password, String::new());
    assert!(f.validate().is_err());
    let e = username_taken();
    assert_eq!((e.status, e.message.as_str()), (400, "Username already taken"));
    let e = user_not_found();
    assert_eq!((e.status, e.message.as_str()), (401, "User not found"));
}

#[test]
fn signin_identifier_is_email_or_user_name() {
    assert_eq!(signin_field("identifier"), Some(SigninField::Identifier));
    assert_eq!(signin_field("password"), Some(SigninField::Password));
    assert_eq!(signin_field("username"), None);
    let mut f = SigninForm::new();
    f.set_identifier("bob@example.com".to_string());
    assert_eq!(f.email, "bob@example.com");
    assert_eq!(f.username, "");
    f.set_identifier("bob".to_string());
    assert_eq!(f.username, "bob");
    assert_eq!(f.email, "bob@example.com");
    let mut g = SigninForm::new();
    g.set_identifier("not an @ address".to_string());
    assert_eq!(g.username, "not an @ address");
    g.set_password("pw".to_string());
    assert_eq!(g.password, "pw");
}

#[test]
fn claims_last_thirty_days() {
    let c = make_claims(7, "bob".to_string(), 1_700_000_000);
    assert_eq!(c.iat, 1_700_000_000);
    assert_eq!(c.exp, 1_700_000_000 + 2_592_000);
    assert_eq!(c.exp - c.iat, TOKEN_LIFETIME_SECS as usize);
    assert_eq!(c.user_id, 7);
    assert_eq!(c.username, "bob");
}

#[test]
fn claims_issued_now() {
    let before = std::time::SystemTime::now()
        .duration_since(std::time::UNIX_EPOCH)
        .unwrap()
        .as_secs() as usize;
    let c = claims_now(9, "ann".to_string());
    assert!(c.iat >= before && c.iat <= before + 5);
    assert_eq!(c.exp - c.iat, 2_592_000);
    assert_eq!((c.user_id, c.username.as_str()), (9, "ann"));
}

#[test]
fn tokens_that_cannot_be_decoded_are_let_through() {
    assert_eq!(check_token(Ok(42), "/photos/a").ok(), Some(Some(42)));
    assert_eq!(check_token(Err(TokenErrorKind::InvalidToken), "/photos/a").ok(), Some(None));
    assert_eq!(check_token(Err(TokenErrorKind::Other), "/signin").ok(), Some(None));
    assert_eq!(check_token(Err(TokenErrorKind::InvalidToken), "/signup").ok(), Some(None));
}
