//! The kinds of failure in the older form of the protocol.

use crate::response::ApiResponse;
use vstd::prelude::*;

verus! {

/// The kinds of answer, numbered from 0.
#[derive(Debug, Clone, Copy, PartialEq, Eq, Structural)]
pub enum ErrorCode {
    OK,
    InvalidSchemaError,
    SigninError,
    SignupError,
}

impl ErrorCode {
    /// The number of the kind: from 0, in the order of the declaration.
    pub open spec fn number(self) -> int {
        match self {
            ErrorCode::OK => 0,
            ErrorCode::InvalidSchemaError => 1,
            ErrorCode::SigninError => 2,
            ErrorCode::SignupError => 3,
        }
    }

    /// The answer that reports a failure of this kind.
    pub fn into_response(self, description: String) -> (r: ApiResponse<()>)
        ensures
            r == ApiResponse::<()>::Failure(self.number() as i32, description),
    {
        ApiResponse::Failure(i32::from(self), description)
    }
}

impl From<ErrorCode> for i32 {
    /// The number of the kind.
    fn from(code: ErrorCode) -> (n: i32) {
        match code {
            ErrorCode::OK => 0,
            ErrorCode::InvalidSchemaError => 1,
            ErrorCode::SigninError => 2,
            ErrorCode::SignupError => 3,
        }
    }
}

impl vstd::std_specs::convert::FromSpecImpl<ErrorCode> for i32 {
    open spec fn obeys_from_spec() -> bool {
        true
    }

    open spec fn from_spec(code: ErrorCode) -> i32 {
        code.number() as i32
    }
}

} // verus!
