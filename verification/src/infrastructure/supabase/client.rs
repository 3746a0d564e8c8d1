//! The client of the identity provider: its address and key, and the
//! requests that it makes.

use vstd::prelude::*;
use vstd::string::StringExecFns;
use crate::config::Config;
use crate::infrastructure::supabase::types::{LoginBody, RegisterBody, RegisterMetadata};
use crate::shared::constants::urls::{
    SUPABASE_AUTH_PATH, SUPABASE_LOGOUT_PATH, SUPABASE_SIGNUP_PATH,
};

verus! {

/// The address of the provider and the key that goes with every request.
#[derive(Debug)]
pub struct SupabaseClient {
    url: String,
    anon_key: String,
}

impl Clone for SupabaseClient {
    fn clone(&self) -> (copy: Self)
        ensures
            copy == *self,
    {
        SupabaseClient { url: self.url.clone(), anon_key: self.anon_key.clone() }
    }
}

/// One request to the provider, which is always a `POST`: where it goes,
/// the key in its `apikey` header, the values of its `Content-Type` and
/// `Authorization` headers where it has them, and its body.
#[derive(Debug, PartialEq, Eq)]
pub struct ProviderRequest<B> {
    pub endpoint: String,
    pub api_key: String,
    pub content_type: Option<&'static str>,
    pub authorization: Option<String>,
    pub body: B,
}

impl SupabaseClient {
    /// The base address of the provider.
    pub closed spec fn base(&self) -> Seq<char> {
        self.url@
    }

    /// The key that goes with every request.
    pub closed spec fn key(&self) -> Seq<char> {
        self.anon_key@
    }

    /// The client for the provider that `cfg` names.
    pub fn new(cfg: &Config) -> (client: Self)
        ensures
            client.base() == cfg.sp_url@,
            client.key() == cfg.sp_anon@,
    {
        Self { url: cfg.sp_url.clone(), anon_key: cfg.sp_anon.clone() }
    }

    /// The address for `path` below the provider's base address.
    fn endpoint(&self, path: &str) -> (address: String)
        ensures
            address@ == self.base() + path@,
    {
        self.url.clone().concat(path)
    }

    /// The request that logs in with an e-mail address and a password.
    pub fn login<'a>(&self, email: &'a str, password: &'a str) -> (request: ProviderRequest<
        LoginBody<'a>,
    >)
        ensures
            request.endpoint@ == self.base() + "/auth/v1/token?grant_type=password"@,
            request.api_key@ == self.key(),
            request.content_type matches Some(kind) && kind@ == "application/json"@,
            request.authorization is None,
            request.body.email@ == email@,
            request.body.password@ == password@,
    {
        ProviderRequest {
            endpoint: self.endpoint(SUPABASE_AUTH_PATH),
            api_key: self.anon_key.clone(),
            content_type: Some("application/json"),
            authorization: None,
            body: LoginBody { email, password },
        }
    }

    /// The request that registers a user, with the data to store with it.
    pub fn register<'a>(
        &self,
        email: &'a str,
        password: &'a str,
        username: &'a str,
        phone_country_code: Option<&'a str>,
        phone_number: Option<&'a str>,
    ) -> (request: ProviderRequest<RegisterBody<'a>>)
        ensures
            request.endpoint@ == self.base() + "/auth/v1/signup"@,
            request.api_key@ == self.key(),
            request.content_type matches Some(kind) && kind@ == "application/json"@,
            request.authorization is None,
            request.body.email@ == email@,
            request.body.password@ == password@,
            request.body.data.username@ == username@,
            request.body.data.phone_country_code == phone_country_code,
            request.body.data.phone_number == phone_number,
    {
        ProviderRequest {
            endpoint: self.endpoint(SUPABASE_SIGNUP_PATH),
            api_key: self.anon_key.clone(),
            content_type: Some("application/json"),
            authorization: None,
            body: RegisterBody {
                email,
                password,
                data: RegisterMetadata { username, phone_country_code, phone_number },
            },
        }
    }

    /// The request that tells the provider to invalidate `access_token`.
    /// It has no body.
    pub fn logout(&self, access_token: &str) -> (request: ProviderRequest<()>)
        ensures
            request.endpoint@ == self.base() + "/auth/v1/logout"@,
            request.api_key@ == self.key(),
            request.content_type is None,
            request.authorization matches Some(value) && value@ == "Bearer "@ + access_token@,
    {
        let mut value = String::from_str("Bearer ");
        value.append(access_token);
        ProviderRequest {
            endpoint: self.endpoint(SUPABASE_LOGOUT_PATH),
            api_key: self.anon_key.clone(),
            content_type: None,
            authorization: Some(value),
            body: (),
        }
    }
}

} // verus!
