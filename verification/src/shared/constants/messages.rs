//! Error messages that are safe to show to a client.

use vstd::prelude::*;

verus! {

pub const AUTH_INVALID_CREDENTIALS: &'static str = "Invalid email or password";

pub const SUPABASE_HTTP_ERROR: &'static str = "Authentication service error";

pub const SUPABASE_NETWORK_ERROR: &'static str = "Unable to reach authentication service";

pub const SUPABASE_PARSE_ERROR: &'static str = "Authentication service returned invalid data";

pub const SUPABASE_TIMEOUT: &'static str = "Authentication service timed out";

pub const VALIDATION_FAILED: &'static str = "Invalid input data";

} // verus!
