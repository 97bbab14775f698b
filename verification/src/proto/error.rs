//! Failures that are reported to the caller: a kind with its number, and a
//! description.

use crate::text::{decimal, decimal_string};
use vstd::prelude::*;
use vstd::string::*;

verus! {

/// The kinds of failure.
#[derive(Debug, Clone, Copy, PartialEq, Eq, Structural)]
pub enum ErrorCode {
    /// The request's body does not have the expected form.
    InvalidSchemaError,
    /// The request lacks data that the operation needs.
    IncompleteDataError,
    /// No person has this login and password.
    SigninError,
    /// The new person could not be stored.
    SignupError,
    /// The caller is unknown, or may not do this.
    NotAuthorizedError,
    /// The old password given for a change of password is wrong.
    OldPasswordIsInvalidError,
    /// What the request names does not exist.
    NotFoundError,
}

impl ErrorCode {
    /// The number of the kind: from 1, in the order of the declaration.
    pub open spec fn number(self) -> int {
        match self {
            ErrorCode::InvalidSchemaError => 1,
            ErrorCode::IncompleteDataError => 2,
            ErrorCode::SigninError => 3,
            ErrorCode::SignupError => 4,
            ErrorCode::NotAuthorizedError => 5,
            ErrorCode::OldPasswordIsInvalidError => 6,
            ErrorCode::NotFoundError => 7,
        }
    }

}

impl From<ErrorCode> for i32 {
    /// The number of the kind.
    fn from(code: ErrorCode) -> (n: i32) {
        match code {
            ErrorCode::InvalidSchemaError => 1,
            ErrorCode::IncompleteDataError => 2,
            ErrorCode::SigninError => 3,
            ErrorCode::SignupError => 4,
            ErrorCode::NotAuthorizedError => 5,
            ErrorCode::OldPasswordIsInvalidError => 6,
            ErrorCode::NotFoundError => 7,
        }
    }
}

impl vstd::std_specs::convert::FromSpecImpl<ErrorCode> for i32 {
    open spec fn obeys_from_spec() -> bool {
        true
    }

    open spec fn from_spec(code: ErrorCode) -> i32 {
        code.number() as i32
    }
}

/// What every failure can say of itself.
pub trait ApiError {
    /// The kind of the failure.
    spec fn kind(&self) -> ErrorCode;

    /// The description of the failure.
    spec fn text(&self) -> Seq<char>;

    /// The number of the failure's kind.
    fn code(&self) -> (n: i32)
        ensures
            n == self.kind().number(),
    ;

    /// The description of the failure.
    fn description(&self) -> (d: String)
        ensures
            d@ == self.text(),
    ;

    /// The failure as a JSON object with the members `err_code` and
    /// `description`. The description is put in as it is.
    fn json(&self) -> (j: String)
        ensures
            j@ == json_of(self.kind().number(), self.text()),
    ;
}

/// The JSON object of a failure.
pub open spec fn json_of(number: int, description: Seq<char>) -> Seq<char> {
    "{\"err_code\":\""@ + decimal(number) + "\", \"description\":\""@ + description + "\"}"@
}

/// A failure of one of the kinds of [`ErrorCode`].
#[derive(Debug, Clone, PartialEq, Eq)]
pub struct ApiFailure {
    pub code: ErrorCode,
    pub description: String,
}

/// The result of an operation that can fail towards the caller.
pub type ApiResult<D> = Result<D, ApiFailure>;

impl ApiFailure {
    /// A failure of the kind `code` with the description `desc`.
    pub fn from_str(code: ErrorCode, desc: &str) -> (e: ApiFailure)
        ensures
            e.code == code,
            e.description@ == desc@,
    {
        ApiFailure { code, description: desc.to_owned() }
    }
}

impl ApiError for ApiFailure {
    open spec fn kind(&self) -> ErrorCode {
        self.code
    }

    open spec fn text(&self) -> Seq<char> {
        self.description@
    }

    fn code(&self) -> (n: i32) {
        i32::from(self.code)
    }

    fn description(&self) -> (d: String) {
        self.description.clone()
    }

    fn json(&self) -> (j: String) {
        let mut j = String::from_str("{\"err_code\":\"");
        let number = decimal_string(i32::from(self.code) as i64);
        j.append(number.as_str());
        j.append("\", \"description\":\"");
        j.append(self.description.as_str());
        j.append("\"}");
        j
    }
}

} // verus!
