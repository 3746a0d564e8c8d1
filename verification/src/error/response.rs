//! The body of an error response.

use vstd::prelude::*;

verus! {

/// What a client is told of an error: the code, a message that is safe to
/// show, and the field at fault where the input failed validation.
#[derive(Debug, PartialEq, Eq)]
pub struct ErrorResponse {
    pub code: &'static str,
    pub message: &'static str,
    pub field: Option<&'static str>,
}

/// Mathematical value of an [`ErrorResponse`].
pub struct ErrorResponseView {
    pub code: Seq<char>,
    pub message: Seq<char>,
    pub field: Option<Seq<char>>,
}

impl View for ErrorResponse {
    type V = ErrorResponseView;

    open spec fn view(&self) -> ErrorResponseView {
        ErrorResponseView {
            code: self.code@,
            message: self.message@,
            field: match self.field {
                Some(name) => Some(name@),
                None => None,
            },
        }
    }
}

} // verus!
