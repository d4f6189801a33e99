//! Sign-up and sign-in forms.

use vstd::prelude::*;
use vstd::string::*;
use crate::error::{ApiError, STATUS_BAD_REQUEST, STATUS_UNAUTHORIZED};
use crate::text::str_equal;

verus! {

/// Whether `s` is a valid e-mail address, as the `email_address` crate
/// judges it with its default options.
pub uninterp spec fn email_is_valid(s: Seq<char>) -> bool;

/// `email_address::EmailAddress::is_valid`. Trusted: the answer is
/// `email_is_valid(s)`, and an address the crate accepts holds an `@` (its
/// parser splits the address at the last `@` and rejects text without one).
#[verifier::external_body]
fn is_valid_email(s: &str) -> (b: bool)
    ensures
        b == email_is_valid(s@),
        b ==> s@.contains('@'),
{
    email_address::EmailAddress::is_valid(s)
}

/// The fields of the sign-up form.
#[derive(Debug, Clone, Copy, PartialEq, Eq, Structural)]
pub enum SignupField {
    Username,
    Password,
    Email,
}

/// The sign-up field a form field name stands for, if any.
pub open spec fn signup_field_named(name: Seq<char>) -> Option<SignupField> {
    if name == "username"@ {
        Some(SignupField::Username)
    } else if name == "password"@ {
        Some(SignupField::Password)
    } else if name == "email"@ {
        Some(SignupField::Email)
    } else {
        None
    }
}

/// Which sign-up field the form field `name` carries; other fields are
/// skipped unread.
pub fn signup_field(name: &str) -> (r: Option<SignupField>)
    ensures
        r == signup_field_named(name@),
{
    if str_equal(name, "username") {
        Some(SignupField::Username)
    } else if str_equal(name, "password") {
        Some(SignupField::Password)
    } else if str_equal(name, "email") {
        Some(SignupField::Email)
    } else {
        None
    }
}

/// A sign-up form as it is read.
pub struct SignupForm {
    pub username: String,
    pub password: String,
    pub email: String,
}

impl SignupForm {
    /// A form with nothing filled in.
    pub fn new() -> (f: SignupForm)
        ensures
            f.username@.len() == 0,
            f.password@.len() == 0,
            f.email@.len() == 0,
    {
        SignupForm { username: String::new(), password: String::new(), email: String::new() }
    }

    /// Fills in one field; a later value replaces an earlier one.
    pub fn set(&mut self, field: SignupField, text: String)
        ensures
            final(self).username == (if field == SignupField::Username {
                text
            } else {
                old(self).username
            }),
            final(self).password == (if field == SignupField::Password {
                text
            } else {
                old(self).password
            }),
            final(self).email == (if field == SignupField::Email {
                text
            } else {
                old(self).email
            }),
    {
        match field {
            SignupField::Username => {
                self.username = text;
            },
            SignupField::Password => {
                self.password = text;
            },
            SignupField::Email => {
                self.email = text;
            },
        }
    }

    /// A form is complete when the user name, password and e-mail are all
    /// given; otherwise it is a bad request.
    pub fn validate(&self) -> (r: Result<(), ApiError>)
        ensures
            r is Ok <==> (self.username@.len() > 0 && self.password@.len() > 0
                && self.email@.len() > 0),
            r matches Err(e) ==> e.status == STATUS_BAD_REQUEST && e.message@
                == "Username or password or email were not specified"@,
    {
        if self.username.as_str().unicode_len() == 0 || self.password.as_str().unicode_len() == 0
            || self.email.as_str().unicode_len() == 0 {
            return Err(
                ApiError::new(
                    STATUS_BAD_REQUEST,
                    "Username or password or email were not specified",
                ),
            );
        }
        Ok(())
    }
}

/// The answer when a new account cannot be stored.
pub fn username_taken() -> (e: ApiError)
    ensures
        e.status == STATUS_BAD_REQUEST,
        e.message@ == "Username already taken"@,
{
    ApiError::new(STATUS_BAD_REQUEST, "Username already taken")
}

/// The answer when no account matches the credentials given.
pub fn user_not_found() -> (e: ApiError)
    ensures
        e.status == STATUS_UNAUTHORIZED,
        e.message@ == "User not found"@,
{
    ApiError::new(STATUS_UNAUTHORIZED, "User not found")
}

/// The fields of the sign-in form.
#[derive(Debug, Clone, Copy, PartialEq, Eq, Structural)]
pub enum SigninField {
    Identifier,
    Password,
}

/// The sign-in field a form field name stands for, if any.
pub open spec fn signin_field_named(name: Seq<char>) -> Option<SigninField> {
    if name == "identifier"@ {
        Some(SigninField::Identifier)
    } else if name == "password"@ {
        Some(SigninField::Password)
    } else {
        None
    }
}

/// Which sign-in field the form field `name` carries; other fields are
/// skipped unread.
pub fn signin_field(name: &str) -> (r: Option<SigninField>)
    ensures
        r == signin_field_named(name@),
{
    if str_equal(name, "identifier") {
        Some(SigninField::Identifier)
    } else if str_equal(name, "password") {
        Some(SigninField::Password)
    } else {
        None
    }
}

/// A sign-in form as it is read: the identifier is taken as an e-mail
/// address when it is one, and as a user name otherwise.
pub struct SigninForm {
    pub username: String,
    pub password: String,
    pub email: String,
}

impl SigninForm {
    /// A form with nothing filled in.
    pub fn new() -> (f: SigninForm)
        ensures
            f.username@.len() == 0,
            f.password@.len() == 0,
            f.email@.len() == 0,
    {
        SigninForm { username: String::new(), password: String::new(), email: String::new() }
    }

    /// Takes the identifier: a valid e-mail address fills the e-mail, any
    /// other text the user name.
    pub fn set_identifier(&mut self, identifier: String)
        ensures
            final(self).password == old(self).password,
            email_is_valid(identifier@) ==> final(self).email == identifier && final(self).username
                == old(self).username,
            !email_is_valid(identifier@) ==> final(self).username == identifier
                && final(self).email == old(self).email,
            !identifier@.contains('@') ==> final(self).username == identifier,
    {
        if is_valid_email(identifier.as_str()) {
            self.email = identifier;
        } else {
            self.username = identifier;
        }
    }

    /// Takes the password.
    pub fn set_password(&mut self, password: String)
        ensures
            final(self).password == password,
            final(self).username == old(self).username,
            final(self).email == old(self).email,
    {
        self.password = password;
    }
}

/// The sign-up form is read from exactly three fields, `username`,
/// `password` and `email`, each carrying the like-named value; every other
/// field is skipped. The sign-in form is read from exactly `identifier` and
/// `password`.
pub proof fn lemma_form_field_names(name: Seq<char>)
    ensures
        signup_field_named(name) == Some(SignupField::Username) <==> name == "username"@,
        signup_field_named(name) == Some(SignupField::Password) <==> name == "password"@,
        signup_field_named(name) == Some(SignupField::Email) <==> name == "email"@,
        signup_field_named(name) is None <==> (name != "username"@ && name != "password"@ && name
            != "email"@),
        signin_field_named(name) == Some(SigninField::Identifier) <==> name == "identifier"@,
        signin_field_named(name) == Some(SigninField::Password) <==> name == "password"@,
        signin_field_named(name) is None <==> (name != "identifier"@ && name != "password"@),
{
    reveal_strlit("username");
    reveal_strlit("password");
    reveal_strlit("email");
    reveal_strlit("identifier");
    assert("username"@ != "password"@) by {
        assert("username"@[0] != "password"@[0]);
    }
    assert("username"@ != "email"@) by {
        assert("username"@.len() != "email"@.len());
    }
    assert("password"@ != "email"@) by {
        assert("password"@.len() != "email"@.len());
    }
    assert("identifier"@ != "password"@) by {
        assert("identifier"@.len() != "password"@.len());
    }
}

} // verus!
