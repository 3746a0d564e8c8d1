//! Logging in, registering and logging out: what is done with the
//! provider's answer.

use vstd::prelude::*;
use crate::config::Config;
use crate::domain::session::{opens_session, SessionStore};
use crate::domain::user::User;
use crate::error::app::{AppError, AppResult};
use crate::error::auth::{of_provider, AuthError};
use crate::error::supabase::SupabaseError;
use crate::infrastructure::supabase::client::SupabaseClient;

verus! {

/// The service that authenticates users: the client of the identity
/// provider and the store of the sessions.
pub struct AuthService {
    supabase: SupabaseClient,
    sessions: SessionStore,
}

impl AuthService {
    /// The session store of the service.
    pub closed spec fn store(&self) -> SessionStore {
        self.sessions
    }

    /// The client of the provider.
    pub closed spec fn provider(&self) -> SupabaseClient {
        self.supabase
    }

    /// The service for the provider that `cfg` names, with the sessions
    /// in `sessions`.
    pub fn new(cfg: &Config, sessions: SessionStore) -> (service: Self)
        ensures
            service.store() == sessions,
            service.provider().base() == cfg.sp_url@,
            service.provider().key() == cfg.sp_anon@,
    {
        Self { supabase: SupabaseClient::new(cfg), sessions }
    }

    /// Ends a login, given what the provider answered to the request of
    /// [`SupabaseClient::login`]. A user opens a session and is returned; a
    /// failure becomes the error for it and leaves the sessions as they are.
    pub fn login(&mut self, outcome: Result<User, SupabaseError>) -> (result: AppResult<User>)
        ensures
            final(self).provider() == old(self).provider(),
            match outcome {
                Ok(user) => {
                    &&& result == Ok::<User, AppError>(user)
                    &&& opens_session(old(self).store()@, final(self).store()@, user@)
                    &&& final(self).store()@.consistent()
                    &&& final(self).store().unsaved()
                },
                Err(failure) => {
                    &&& result == Err::<User, AppError>(AppError::Auth(of_provider(failure)))
                    &&& final(self).store() == old(self).store()
                },
            },
    {
        match outcome {
            Ok(user) => {
                let session_id = self.sessions.create_session(user.clone());
                assert(self.store()@ == old(self).store()@.insert(session_id@, user@));
                Ok(user)
            },
            Err(failure) => Err(AppError::Auth(AuthError::of(failure))),
        }
    }

    /// Ends a registration, given what the provider answered to the
    /// request of [`SupabaseClient::register`]. It ends as a login does.
    pub fn register(&mut self, outcome: Result<User, SupabaseError>) -> (result: AppResult<User>)
        ensures
            final(self).provider() == old(self).provider(),
            match outcome {
                Ok(user) => {
                    &&& result == Ok::<User, AppError>(user)
                    &&& opens_session(old(self).store()@, final(self).store()@, user@)
                    &&& final(self).store()@.consistent()
                    &&& final(self).store().unsaved()
                },
                Err(failure) => {
                    &&& result == Err::<User, AppError>(AppError::Auth(of_provider(failure)))
                    &&& final(self).store() == old(self).store()
                },
            },
    {
        self.login(outcome)
    }

    /// Ends the session `session_id`. Returns the user whose session it
    /// was, whose access token the provider is then told to invalidate with
    /// [`SupabaseClient::logout`]; `None` if no such session is live.
    pub fn logout(&mut self, session_id: &str) -> (removed: Option<User>)
        ensures
            final(self).provider() == old(self).provider(),
            final(self).store()@.consistent(),
            final(self).store()@ == old(self).store()@.delete(session_id@),
            final(self).store().unsaved() == (old(self).store().unsaved() || removed is Some),
            match removed {
                Some(user) => old(self).store()@.lookup(session_id@) == Some(user@),
                None => old(self).store()@.lookup(session_id@) is None,
            },
    {
        self.sessions.delete_session(session_id)
    }

    /// The session store, to look a user up.
    pub fn sessions(&self) -> (sessions: &SessionStore)
        ensures
            *sessions == self.store(),
    {
        &self.sessions
    }

    /// The session store, to change it.
    pub fn sessions_mut(&mut self) -> (sessions: &mut SessionStore)
        ensures
            *sessions == old(self).store(),
            final(self).store() == *final(sessions),
            final(self).provider() == old(self).provider(),
    {
        &mut self.sessions
    }

    /// The client of the provider.
    pub fn supabase(&self) -> (client: &SupabaseClient)
        ensures
            *client == self.provider(),
    {
        &self.supabase
    }
}

} // verus!
