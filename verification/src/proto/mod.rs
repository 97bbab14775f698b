//! What the service exchanges with its callers: requests, answers and
//! failures.

pub mod error;
pub mod schema;
