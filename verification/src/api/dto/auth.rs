//! Requests to log in and to register, with their validation, and the
//! response to both.

use vstd::prelude::*;
use crate::domain::user::User;

verus! {

/// Whether `text` is an e-mail address, as `validator::validate_email`
/// decides it: by the rules of the HTML5 specification for the part before
/// the last `@` and for the domain after it.
pub uninterp spec fn is_email(text: Seq<char>) -> bool;

/// Calls `validator::validate_email`. Trusted: the answer depends on the
/// text alone, so that it is the value of [`is_email`] on it.
#[verifier::external_body]
fn email_ok(value: &str) -> (ok: bool)
    ensures
        ok == is_email(value@),
{
    validator::validate_email(value)
}

/// `len` is at least `min` and at most `max`, where these are given.
pub open spec fn within(len: nat, min: Option<u64>, max: Option<u64>) -> bool {
    &&& min matches Some(least) ==> len >= least
    &&& max matches Some(most) ==> len <= most
}

/// Calls `validator::validate_length` with no exact length to meet.
/// Trusted: the length that it holds against the bounds is the number of
/// characters of `value`, and it answers whether that number is within them.
#[verifier::external_body]
fn length_ok(value: &str, min: Option<u64>, max: Option<u64>) -> (ok: bool)
    ensures
        ok == within(value@.len(), min, max),
{
    validator::validate_length(value, min, max, None)
}

/// The first complaint about a request: the name of the field and the
/// message for it, if the rule gives one.
#[derive(Debug, PartialEq, Eq)]
pub struct FieldError {
    pub field: &'static str,
    pub message: Option<&'static str>,
}

/// Mathematical value of a [`FieldError`].
pub struct FieldErrorView {
    pub field: Seq<char>,
    pub message: Option<Seq<char>>,
}

impl View for FieldError {
    type V = FieldErrorView;

    open spec fn view(&self) -> FieldErrorView {
        FieldErrorView {
            field: self.field@,
            message: match self.message {
                Some(text) => Some(text@),
                None => None,
            },
        }
    }
}

/// The complaint about `field` with the message `message`.
pub open spec fn complaint(field: Seq<char>, message: Seq<char>) -> Option<FieldErrorView> {
    Some(FieldErrorView { field, message: Some(message) })
}

/// A request whose fields are held to rules.
pub trait Validate {
    /// The first rule that the request breaks, with the fields taken in the
    /// order of their declaration and the rules of a field in theirs.
    spec fn first_error(&self) -> Option<FieldErrorView>;

    /// Checks the request against its rules.
    fn validate(&self) -> (checked: Result<(), FieldError>)
        ensures
            match checked {
                Ok(_) => self.first_error() is None,
                Err(error) => self.first_error() == Some(error@),
            },
    ;
}

/// What the rules for an e-mail address say of `email`.
pub open spec fn email_error(email: Seq<char>) -> Option<FieldErrorView> {
    if !is_email(email) {
        complaint("email"@, "Invalid email format"@)
    } else if email.len() > 255 {
        complaint("email"@, "Email too long"@)
    } else {
        None
    }
}

/// What the rule for a password says of `password`.
pub open spec fn password_error(password: Seq<char>) -> Option<FieldErrorView> {
    if !(6 <= password.len() <= 128) {
        complaint("password"@, "Password must be 6-128 characters"@)
    } else {
        None
    }
}

/// What the rule for `field`, which may hold at most `most` characters where
/// it is given, says of `value`.
pub open spec fn optional_error(
    value: Option<String>,
    most: nat,
    field: Seq<char>,
    message: Seq<char>,
) -> Option<FieldErrorView> {
    match value {
        Some(text) => if text@.len() > most {
            complaint(field, message)
        } else {
            None
        },
        None => None,
    }
}

fn check_email(email: &str) -> (checked: Result<(), FieldError>)
    ensures
        match checked {
            Ok(_) => email_error(email@) is None,
            Err(error) => email_error(email@) == Some(error@),
        },
{
    if !email_ok(email) {
        return Err(FieldError { field: "email", message: Some("Invalid email format") });
    }
    if !length_ok(email, None, Some(255)) {
        return Err(FieldError { field: "email", message: Some("Email too long") });
    }
    Ok(())
}

fn check_password(password: &str) -> (checked: Result<(), FieldError>)
    ensures
        match checked {
            Ok(_) => password_error(password@) is None,
            Err(error) => password_error(password@) == Some(error@),
        },
{
    if !length_ok(password, Some(6), Some(128)) {
        return Err(
            FieldError { field: "password", message: Some("Password must be 6-128 characters") },
        );
    }
    Ok(())
}

/// A request to log in.
#[derive(Debug)]
pub struct LoginRequest {
    /// An e-mail address of at most 255 characters.
    pub email: String,
    /// Between 6 and 128 characters.
    pub password: String,
}

impl Validate for LoginRequest {
    open spec fn first_error(&self) -> Option<FieldErrorView> {
        if email_error(self.email@) is Some {
            email_error(self.email@)
        } else {
            password_error(self.password@)
        }
    }

    fn validate(&self) -> (checked: Result<(), FieldError>) {
        match check_email(self.email.as_str()) {
            Err(error) => Err(error),
            Ok(_) => check_password(self.password.as_str()),
        }
    }
}

/// A request to register.
#[derive(Debug)]
pub struct RegisterRequest {
    /// An e-mail address of at most 255 characters.
    pub email: String,
    /// Between 6 and 128 characters.
    pub password: String,
    /// Between 3 and 50 characters.
    pub username: String,
    /// At most 5 characters.
    pub phone_country_code: Option<String>,
    /// At most 20 characters.
    pub phone_number: Option<String>,
}

impl RegisterRequest {
    /// What the rule for a user name says of the request.
    pub open spec fn username_error(&self) -> Option<FieldErrorView> {
        if !(3 <= self.username@.len() <= 50) {
            complaint("username"@, "Username must be 3-50 characters"@)
        } else {
            None
        }
    }

    /// What the rules for the telephone number say of the request.
    pub open spec fn phone_error(&self) -> Option<FieldErrorView> {
        let code = optional_error(
            self.phone_country_code,
            5,
            "phone_country_code"@,
            "Country code too long"@,
        );
        if code is Some {
            code
        } else {
            optional_error(self.phone_number, 20, "phone_number"@, "Phone number too long"@)
        }
    }
}

impl Validate for RegisterRequest {
    open spec fn first_error(&self) -> Option<FieldErrorView> {
        if email_error(self.email@) is Some {
            email_error(self.email@)
        } else if password_error(self.password@) is Some {
            password_error(self.password@)
        } else if self.username_error() is Some {
            self.username_error()
        } else {
            self.phone_error()
        }
    }

    fn validate(&self) -> (checked: Result<(), FieldError>) {
        match check_email(self.email.as_str()) {
            Err(error) => {
                return Err(error);
            },
            Ok(_) => {},
        }
        match check_password(self.password.as_str()) {
            Err(error) => {
                return Err(error);
            },
            Ok(_) => {},
        }
        if !length_ok(self.username.as_str(), Some(3), Some(50)) {
            return Err(
                FieldError { field: "username", message: Some("Username must be 3-50 characters") },
            );
        }
        match &self.phone_country_code {
            Some(code) => {
                if !length_ok(code.as_str(), None, Some(5)) {
                    return Err(
                        FieldError {
                            field: "phone_country_code",
                            message: Some("Country code too long"),
                        },
                    );
                }
            },
            None => {},
        }
        match &self.phone_number {
            Some(number) => {
                if !length_ok(number.as_str(), None, Some(20)) {
                    return Err(
                        FieldError { field: "phone_number", message: Some("Phone number too long") },
                    );
                }
            },
            None => {},
        }
        Ok(())
    }
}

/// What a client is told of the user after logging in or registering. It
/// has no place for a token.
#[derive(Debug, PartialEq, Eq)]
pub struct AuthResponse {
    pub username: String,
    pub email: String,
    pub role: String,
}

impl AuthResponse {
    /// The response for `u`: its user name, e-mail address and role.
    pub fn from_user(u: &User) -> (response: Self)
        ensures
            response.username@ == u.username@,
            response.email@ == u.email@,
            response.role@ == u.role@,
    {
        Self { username: u.username.clone(), email: u.email.clone(), role: u.role.clone() }
    }
}

} // verus!
