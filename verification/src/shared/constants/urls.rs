//! Paths of the identity provider's API, below its base address.

use vstd::prelude::*;

verus! {

pub const SUPABASE_AUTH_PATH: &'static str = "/auth/v1/token?grant_type=password";

pub const SUPABASE_SIGNUP_PATH: &'static str = "/auth/v1/signup";

pub const SUPABASE_LOGOUT_PATH: &'static str = "/auth/v1/logout";

} // verus!
