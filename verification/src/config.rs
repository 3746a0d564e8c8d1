//! The settings of the application.

use vstd::prelude::*;
use crate::text::same_text;

verus! {

/// The settings, as text, as the environment gives them.
#[derive(Debug, PartialEq, Eq)]
pub struct Config {
    /// The address to listen on.
    pub ip: String,
    /// The port to listen on.
    pub port: String,
    /// The identifier of the provider's project.
    pub sp_id: String,
    /// The base address of the provider.
    pub sp_url: String,
    /// The provider's public API key.
    pub sp_anon: String,
    /// The provider's service key.
    pub sp_service_role: String,
    /// Whether the session cookie is only sent over HTTPS: `true` or `false`.
    pub secure_http: String,
}

/// `text` read as a truth value: `true` or `false`, spelled so.
pub open spec fn parse_bool(text: Seq<char>) -> Option<bool> {
    if text == "true"@ {
        Some(true)
    } else if text == "false"@ {
        Some(false)
    } else {
        None
    }
}

impl Config {
    /// Whether the session cookie is to be marked as secure. `None` if the
    /// setting is neither `true` nor `false`.
    pub fn secure_cookies(&self) -> (secure: Option<bool>)
        ensures
            secure == parse_bool(self.secure_http@),
    {
        if same_text(self.secure_http.as_str(), "true") {
            Some(true)
        } else if same_text(self.secure_http.as_str(), "false") {
            Some(false)
        } else {
            None
        }
    }
}

impl Clone for Config {
    fn clone(&self) -> (copy: Self)
        ensures
            copy == *self,
    {
        Config {
            ip: self.ip.clone(),
            port: self.port.clone(),
            sp_id: self.sp_id.clone(),
            sp_url: self.sp_url.clone(),
            sp_anon: self.sp_anon.clone(),
            sp_service_role: self.sp_service_role.clone(),
            secure_http: self.secure_http.clone(),
        }
    }
}

} // verus!
