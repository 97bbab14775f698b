//! The core of a hotel booking service.
//!
//! Two things carry the service. One builds its SQL: templates with named
//! placeholders, four builders that fill them, and record types that are
//! bound to their tables by one declaration each. The other knows its
//! callers: the identity behind each token, and the roles of each identity.
//! Around them stand the decisions that the service takes for each of its
//! requests, given what the database returned.
//!
//! Nothing here talks to a database or to a network. The library hands out
//! statements with their arguments and takes rows back.

#![allow(non_snake_case)]

pub mod api;
pub mod db;
pub mod error;
pub mod occurrence;
pub mod populate;
pub mod proto;
pub mod response;
pub mod text;
