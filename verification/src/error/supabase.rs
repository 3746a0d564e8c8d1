//! Failures of a call to the identity provider.

use vstd::prelude::*;
use crate::error::code::ErrorCode;
use crate::shared::constants::status::{BAD_GATEWAY, BAD_REQUEST, UNAUTHORIZED};

verus! {

/// What is known of a request that failed before an answer was read.
#[derive(Debug, PartialEq, Eq)]
pub struct TransportFailure {
    /// The request ran out of time.
    pub timeout: bool,
    /// No connection to the provider could be made.
    pub connect: bool,
    /// The request could not be sent.
    pub request: bool,
    /// The answer's body could not be decoded.
    pub decode: bool,
    /// The status code that the failure carries, if any.
    pub status: Option<u16>,
    /// The failure in words, for the log.
    pub detail: String,
}

/// A failed call to the identity provider, by kind.
#[derive(Debug, PartialEq, Eq)]
pub enum SupabaseError {
    /// The provider answered with a status that reports an error.
    Http { status: u16, body: String },
    /// The provider could not be reached.
    Network(TransportFailure),
    /// The provider's answer could not be understood.
    Parse { body: String },
    /// The provider did not answer in time.
    Timeout(TransportFailure),
}

/// Mathematical value of a [`SupabaseError`].
pub enum SupabaseErrorView {
    Http { status: u16, body: Seq<char> },
    Network(TransportFailure),
    Parse { body: Seq<char> },
    Timeout(TransportFailure),
}

impl View for SupabaseError {
    type V = SupabaseErrorView;

    open spec fn view(&self) -> SupabaseErrorView {
        match *self {
            SupabaseError::Http { status, body } => SupabaseErrorView::Http { status, body: body@ },
            SupabaseError::Network(err) => SupabaseErrorView::Network(err),
            SupabaseError::Parse { body } => SupabaseErrorView::Parse { body: body@ },
            SupabaseError::Timeout(err) => SupabaseErrorView::Timeout(err),
        }
    }
}

/// `status` if it is a status code, which has three digits; else 502.
pub open spec fn gateway_status(status: u16) -> u16 {
    if 100 <= status < 1000 {
        status
    } else {
        502
    }
}

/// `status` is one of the codes from 200 to 299.
pub open spec fn is_success(status: u16) -> bool {
    200 <= status < 300
}

/// The kind of failure that `err` is: a timeout before all else, then a
/// failure to connect or to send, then a body that did not decode, then a
/// status code, and a network failure where nothing else is known.
pub open spec fn classify(err: TransportFailure) -> SupabaseErrorView {
    if err.timeout {
        SupabaseErrorView::Timeout(err)
    } else if err.connect || err.request {
        SupabaseErrorView::Network(err)
    } else if err.decode {
        SupabaseErrorView::Parse { body: Seq::empty() }
    } else {
        match err.status {
            Some(status) => SupabaseErrorView::Http {
                status: gateway_status(status),
                body: Seq::empty(),
            },
            None => SupabaseErrorView::Network(err),
        }
    }
}

/// What an answer of the provider comes to, given its status and what came
/// of reading its body. A status outside 200 to 299 is an `Http` failure
/// with the body, or with an empty body if none could be read. With a
/// status of success, a body that could not be read is the failure that
/// [`classify`] makes of it, and a body that was read is to be decoded.
pub open spec fn sort_response(status: u16, text: Result<String, TransportFailure>) -> Result<
    Seq<char>,
    SupabaseErrorView,
> {
    if !is_success(status) {
        Err(
            SupabaseErrorView::Http {
                status: gateway_status(status),
                body: match text {
                    Ok(read) => read@,
                    Err(_) => Seq::empty(),
                },
            },
        )
    } else {
        match text {
            Ok(read) => Ok(read@),
            Err(err) => Err(classify(err)),
        }
    }
}

impl SupabaseErrorView {
    /// The code of the failure. A status of 401 or 400 from the provider
    /// means bad credentials; any other status is a fault of the provider.
    pub open spec fn code(self) -> ErrorCode {
        match self {
            SupabaseErrorView::Http { status, .. } => if status == 401 || status == 400 {
                ErrorCode::InvalidCredentials
            } else {
                ErrorCode::SupabaseHttpError
            },
            SupabaseErrorView::Network(_) => ErrorCode::SupabaseNetworkError,
            SupabaseErrorView::Parse { .. } => ErrorCode::SupabaseParseError,
            SupabaseErrorView::Timeout(_) => ErrorCode::SupabaseTimeout,
        }
    }
}

impl SupabaseError {
    /// The failure of a request that got no usable answer.
    pub fn from_reqwest(err: TransportFailure) -> (failure: SupabaseError)
        ensures
            failure@ == classify(err),
    {
        if err.timeout {
            return SupabaseError::Timeout(err);
        }
        if err.connect || err.request {
            return SupabaseError::Network(err);
        }
        if err.decode {
            return SupabaseError::Parse { body: String::new() };
        }
        if let Some(status) = err.status {
            return SupabaseError::http(status, String::new());
        }
        SupabaseError::Network(err)
    }

    /// The failure that an answer with the status `status` and the body
    /// `body` reports.
    pub fn http(status: u16, body: String) -> (failure: SupabaseError)
        ensures
            failure@ == (SupabaseErrorView::Http { status: gateway_status(status), body: body@ }),
    {
        if 100 <= status && status < 1000 {
            SupabaseError::Http { status, body }
        } else {
            SupabaseError::Http { status: BAD_GATEWAY, body }
        }
    }

    /// The failure to understand the answer `body`.
    pub fn parse(body: String) -> (failure: SupabaseError)
        ensures
            failure@ == (SupabaseErrorView::Parse { body: body@ }),
    {
        SupabaseError::Parse { body }
    }

    /// The code of the failure.
    pub fn code(&self) -> (code: ErrorCode)
        ensures
            code == self@.code(),
    {
        match self {
            SupabaseError::Http { status, .. } => {
                if *status == UNAUTHORIZED || *status == BAD_REQUEST {
                    ErrorCode::InvalidCredentials
                } else {
                    ErrorCode::SupabaseHttpError
                }
            },
            SupabaseError::Network(_) => ErrorCode::SupabaseNetworkError,
            SupabaseError::Parse { .. } => ErrorCode::SupabaseParseError,
            SupabaseError::Timeout(_) => ErrorCode::SupabaseTimeout,
        }
    }

    /// Sorts an answer of the provider: the body to decode, or the failure
    /// that the answer is.
    pub fn parse_response(status: u16, text: Result<String, TransportFailure>) -> (sorted: Result<
        String,
        SupabaseError,
    >)
        ensures
            match sorted {
                Ok(body) => sort_response(status, text) == Ok::<Seq<char>, SupabaseErrorView>(body@),
                Err(failure) => sort_response(status, text) == Err::<Seq<char>, SupabaseErrorView>(
                    failure@,
                ),
            },
    {
        if !(200 <= status && status < 300) {
            let body = match text {
                Ok(read) => read,
                Err(_) => String::new(),
            };
            return Err(SupabaseError::http(status, body));
        }
        match text {
            Ok(body) => Ok(body),
            Err(err) => Err(SupabaseError::from_reqwest(err)),
        }
    }
}

} // verus!
