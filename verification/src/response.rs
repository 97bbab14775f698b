//! Answers in the older form of the protocol: the data, or a failure with
//! its number and description.

use crate::text::{decimal, decimal_string};
use vstd::prelude::*;
use vstd::string::*;

verus! {

/// An answer: the data asked for, or the number and description of a
/// failure.
#[derive(Debug, Clone, PartialEq, Eq)]
pub enum ApiResponse<D> {
    Data(D),
    Failure(i32, String),
}

/// The JSON object of a failure in the older form.
pub open spec fn failure_json(code: i32, description: Seq<char>) -> Seq<char> {
    "{ \"error_code\": "@ + decimal(code as int) + ", \"description\": \""@ + description
        + "\" }"@
}

impl<D> ApiResponse<D> {
    /// The HTTP status of the answer: 200 for data, 403 for a failure.
    pub fn status(&self) -> (s: u16)
        ensures
            s == if self is Data {
                200u16
            } else {
                403u16
            },
    {
        match self {
            ApiResponse::Data(_) => 200,
            ApiResponse::Failure(_, _) => 403,
        }
    }

    /// The body of the answer as JSON, given the JSON of its data. A
    /// failure is an object with the members `error_code` and
    /// `description`; the description is put in as it is.
    pub fn to_json(&self, data: &str) -> (j: String)
        ensures
            j@ == match self {
                ApiResponse::Data(_) => data@,
                ApiResponse::Failure(code, description) => failure_json(*code, description@),
            },
    {
        match self {
            ApiResponse::Data(_) => data.to_owned(),
            ApiResponse::Failure(code, description) => {
                let mut j = String::from_str("{ \"error_code\": ");
                let number = decimal_string(*code as i64);
                j.append(number.as_str());
                j.append(", \"description\": \"");
                j.append(description.as_str());
                j.append("\" }");
                j
            },
        }
    }
}

} // verus!
