//! The HTTP status code that goes with each error code.

use vstd::prelude::*;

verus! {

/// 400 Bad Request.
pub const BAD_REQUEST: u16 = 400;

/// 401 Unauthorized.
pub const UNAUTHORIZED: u16 = 401;

/// 502 Bad Gateway.
pub const BAD_GATEWAY: u16 = 502;

/// 504 Gateway Timeout.
pub const GATEWAY_TIMEOUT: u16 = 504;

pub const AUTH_INVALID_CREDENTIALS: u16 = 401;

pub const SUPABASE_HTTP_ERROR: u16 = 502;

pub const SUPABASE_NETWORK_ERROR: u16 = 502;

pub const SUPABASE_PARSE_ERROR: u16 = 502;

pub const SUPABASE_TIMEOUT: u16 = 504;

pub const VALIDATION_FAILED: u16 = 400;

} // verus!
