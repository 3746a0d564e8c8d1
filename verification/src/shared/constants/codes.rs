//! Error codes: the identifiers that clients receive.

use vstd::prelude::*;

verus! {

pub const AUTH_INVALID_CREDENTIALS: &'static str = "AUTH_INVALID_CREDENTIALS";

pub const SUPABASE_HTTP_ERROR: &'static str = "SUPABASE_HTTP_ERROR";

pub const SUPABASE_NETWORK_ERROR: &'static str = "SUPABASE_NETWORK_ERROR";

pub const SUPABASE_PARSE_ERROR: &'static str = "SUPABASE_PARSE_ERROR";

pub const SUPABASE_TIMEOUT: &'static str = "SUPABASE_TIMEOUT";

pub const VALIDATION_FAILED: &'static str = "VALIDATION_FAILED";

} // verus!
