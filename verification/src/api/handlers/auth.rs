//! The endpoints that log in, register and log out.

use vstd::prelude::*;
use vstd::string::StringExecFns;
use crate::api::dto::auth::{AuthResponse, FieldError, FieldErrorView, Validate};
use crate::config::parse_bool;
use crate::domain::model::{lemma_create_replaces, SessionTable};
use crate::domain::session::{is_generated_id, opens_session};
use crate::domain::user::User;
use crate::error::app::{AppError, AppResult};
use crate::error::auth::of_provider;
use crate::error::supabase::SupabaseError;
use crate::state::App;
use crate::text::same_text;

verus! {

/// The name under which a field is reported to the client: its own for
/// the e-mail address, the password and the user name, `unknown` for any
/// other.
pub open spec fn static_field(field: Seq<char>) -> Seq<char> {
    if field == "email"@ {
        "email"@
    } else if field == "password"@ {
        "password"@
    } else if field == "username"@ {
        "username"@
    } else {
        "unknown"@
    }
}

/// The error that a complaint about a request becomes.
pub open spec fn rejection(first: FieldErrorView, error: AppError) -> bool {
    &&& error matches AppError::Validation { field, message }
    &&& field@ == static_field(first.field)
    &&& message@ == match first.message {
        Some(text) => text,
        None => "Validation failed"@,
    }
}

/// The error that the complaint `first` about a request becomes.
pub fn reject(first: FieldError) -> (error: AppError)
    ensures
        rejection(first@, error),
{
    let message = match first.message {
        Some(text) => String::from_str(text),
        None => String::from_str("Validation failed"),
    };
    let static_field: &'static str = if same_text(first.field, "email") {
        "email"
    } else if same_text(first.field, "password") {
        "password"
    } else if same_text(first.field, "username") {
        "username"
    } else {
        "unknown"
    };
    AppError::validation(static_field, message)
}

/// Checks a request against its rules. The first rule that is broken
/// becomes the error.
pub fn validate_request<T: Validate>(req: &T) -> (checked: AppResult<()>)
    ensures
        match checked {
            Ok(_) => req.first_error() is None,
            Err(error) => req.first_error() matches Some(first) && rejection(first, error),
        },
{
    match req.validate() {
        Ok(_) => Ok(()),
        Err(first) => Err(reject(first)),
    }
}

/// A cookie to set, by its attributes.
#[derive(Debug, PartialEq, Eq)]
pub struct SessionCookie {
    pub name: &'static str,
    pub value: String,
    /// Not readable by scripts.
    pub http_only: bool,
    /// Only sent over HTTPS.
    pub secure: bool,
    /// Sent with requests from other sites only when a link is followed.
    pub same_site_lax: bool,
    pub path: &'static str,
    /// The cookie has an age of zero: the client drops it.
    pub expired: bool,
}

impl SessionCookie {
    /// The cookie that carries `session_id`.
    pub open spec fn carries(self, session_id: Seq<char>, secure: bool) -> bool {
        &&& self.name@ == "session_id"@
        &&& self.value@ == session_id
        &&& self.http_only
        &&& self.secure == secure
        &&& self.same_site_lax
        &&& self.path@ == "/"@
        &&& !self.expired
    }

    /// The cookie that makes the client drop its session cookie.
    pub open spec fn clears(self) -> bool {
        &&& self.name@ == "session_id"@
        &&& self.value@.len() == 0
        &&& self.http_only
        &&& !self.secure
        &&& !self.same_site_lax
        &&& self.path@ == "/"@
        &&& self.expired
    }
}

/// What is sent to a user who has logged in or registered.
#[derive(Debug, PartialEq, Eq)]
pub struct SignedIn {
    /// The HTTP status code.
    pub status: u16,
    /// The cookie with the identifier of the new session.
    pub cookie: SessionCookie,
    pub body: AuthResponse,
}

/// What is sent to a user who has logged out.
#[derive(Debug, PartialEq, Eq)]
pub struct SignedOut {
    /// The cookie that makes the client drop its session cookie.
    pub cookie: SessionCookie,
    pub message: &'static str,
}

/// The outcome of a login or a registration that the provider has answered
/// with `outcome`, where success is sent with the status `status`.
pub open spec fn signed_in(
    before: App,
    after: App,
    outcome: Result<User, SupabaseError>,
    reply: AppResult<SignedIn>,
    status: u16,
) -> bool {
    match outcome {
        Ok(user) => {
            &&& reply matches Ok(sent)
            &&& sent.status == status
            &&& parse_bool(before.config.secure_http@) matches Some(secure)
            &&& sent.cookie.carries(sent.cookie.value@, secure)
            &&& is_generated_id(sent.cookie.value@)
            &&& after.auth.store()@.lookup(sent.cookie.value@) == Some(user@)
            &&& after.auth.store()@.session_of(user.id@) == Some(sent.cookie.value@)
            &&& after.auth.store().unsaved()
            &&& sent.body.username@ == user.username@
            &&& sent.body.email@ == user.email@
            &&& sent.body.role@ == user.role@
            &&& exists|once: SessionTable| #[trigger]
                opens_session(before.auth.store()@, once, user@) && after.auth.store()@
                    == once.insert(sent.cookie.value@, user@)
        },
        Err(failure) => {
            &&& reply matches Err(error)
            &&& error == AppError::Auth(of_provider(failure))
            &&& after.auth.store() == before.auth.store()
        },
    }
}

/// Ends a login or a registration.
fn sign_in(app: &mut App, outcome: Result<User, SupabaseError>, status: u16) -> (reply: AppResult<
    SignedIn,
>)
    requires
        parse_bool(old(app).config.secure_http@) is Some,
    ensures
        final(app).config == old(app).config,
        final(app).auth.provider() == old(app).auth.provider(),
        signed_in(*old(app), *final(app), outcome, reply, status),
{
    let user = match app.auth.login(outcome) {
        Ok(user) => user,
        Err(error) => {
            return Err(error);
        },
    };
    let ghost once = app.auth.store()@;
    let session_id = app.auth.sessions_mut().create_session(user.clone());
    proof {
        lemma_create_replaces(once, session_id@, user@);
    }
    let secure = match app.config.secure_cookies() {
        Some(secure) => secure,
        None => false,
    };
    let cookie = SessionCookie {
        name: "session_id",
        value: session_id,
        http_only: true,
        secure,
        same_site_lax: true,
        path: "/",
        expired: false,
    };
    Ok(SignedIn { status, cookie, body: AuthResponse::from_user(&user) })
}

/// Ends a login, given what the provider answered. On success the user
/// has one session, whose identifier goes into the cookie, and the status
/// is 200.
pub fn login_handler(app: &mut App, outcome: Result<User, SupabaseError>) -> (reply: AppResult<
    SignedIn,
>)
    requires
        parse_bool(old(app).config.secure_http@) is Some,
    ensures
        final(app).config == old(app).config,
        final(app).auth.provider() == old(app).auth.provider(),
        signed_in(*old(app), *final(app), outcome, reply, 200),
{
    sign_in(app, outcome, 200)
}

/// Ends a registration, given what the provider answered. On success the
/// user has one session, whose identifier goes into the cookie, and the
/// status is 201.
pub fn register_handler(app: &mut App, outcome: Result<User, SupabaseError>) -> (reply: AppResult<
    SignedIn,
>)
    requires
        parse_bool(old(app).config.secure_http@) is Some,
    ensures
        final(app).config == old(app).config,
        final(app).auth.provider() == old(app).auth.provider(),
        signed_in(*old(app), *final(app), outcome, reply, 201),
{
    sign_in(app, outcome, 201)
}

/// Logs out: ends the session that the cookie value `session_id` names, if
/// there is a cookie, and has the client drop the cookie in any case. The
/// user that is returned is the one whose session ended; the provider is
/// then told to invalidate that user's access token.
pub fn logout_handler(app: &mut App, session_id: Option<&str>) -> (reply: (Option<User>, SignedOut))
    ensures
        final(app).config == old(app).config,
        final(app).auth.provider() == old(app).auth.provider(),
        reply.1.cookie.clears(),
        reply.1.message@ == "Logged out successfully"@,
        final(app).auth.store().unsaved() == (old(app).auth.store().unsaved() || reply.0 is Some),
        match session_id {
            Some(id) => final(app).auth.store()@ == old(app).auth.store()@.delete(id@) && (
            match reply.0 {
                Some(user) => old(app).auth.store()@.lookup(id@) == Some(user@),
                None => old(app).auth.store()@.lookup(id@) is None,
            }),
            None => final(app).auth.store() == old(app).auth.store() && reply.0 is None,
        },
{
    let removed = match session_id {
        Some(id) => app.auth.logout(id),
        None => None,
    };
    let cookie = SessionCookie {
        name: "session_id",
        value: String::new(),
        http_only: true,
        secure: false,
        same_site_lax: false,
        path: "/",
        expired: true,
    };
    (removed, SignedOut { cookie, message: "Logged out successfully" })
}

} // verus!
