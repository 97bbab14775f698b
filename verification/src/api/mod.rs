//! What the service decides for each of its requests.
//!
//! A request is served in turns: the functions here say which statement to
//! run next, and decide on the rows that came back. Running the statements
//! and talking to the caller is left to the program around the library.

pub mod account;
pub mod authorization;
pub mod booking;
pub mod city;
pub mod hotel;
pub mod manager;
pub mod ruleset;
pub mod search;

use self::authorization::fails;
use crate::db::row::{cells_of, values_of, Statement, Value, ValueModel};
use crate::proto::error::{ApiFailure, ApiResult, ErrorCode};
use crate::text::{decimal, decimal_string};
use vstd::prelude::*;
use vstd::string::*;

verus! {

/// The number, or `otherwise` where there is none.
pub open spec fn number_or(n: Option<i32>, otherwise: i32) -> i32 {
    match n {
        Some(v) => v,
        None => otherwise,
    }
}

/// The number, or `otherwise` where there is none.
pub fn or_number(n: Option<i32>, otherwise: i32) -> (r: i32)
    ensures
        r == number_or(n, otherwise),
{
    match n {
        Some(v) => v,
        None => otherwise,
    }
}

/// The statement with one argument that is the number `id`.
pub fn with_identity(sql: String, id: i32) -> (s: Statement)
    ensures
        s@ == (sql@, seq![ValueModel::Int(id)]),
{
    let mut args: Vec<Value> = Vec::new();
    args.push(Value::Int(id));
    proof {
        assert(values_of(args@) =~= seq![ValueModel::Int(id)]);
    }
    Statement { sql, args }
}

/// The one change of `column` to the text `value`, if there is a value.
pub open spec fn text_change(column: Seq<char>, value: Option<String>) -> Seq<
    (Seq<char>, ValueModel),
> {
    match value {
        Some(v) => seq![(column, ValueModel::Text(v@))],
        None => seq![],
    }
}

/// The one change of `column` to the number `value`, if there is a value.
pub open spec fn number_change(column: Seq<char>, value: Option<i32>) -> Seq<
    (Seq<char>, ValueModel),
> {
    match value {
        Some(v) => seq![(column, ValueModel::Int(v))],
        None => seq![],
    }
}

/// Notes the change of `column` to the text `value`, if there is a value.
pub fn note_text(changes: &mut Vec<(String, Value)>, column: &str, value: &Option<String>)
    ensures
        cells_of(final(changes)@) == cells_of(old(changes)@) + text_change(column@, *value),
        final(changes).len() >= old(changes).len(),
        forall|i: int| 0 <= i < old(changes).len() ==> final(changes)[i] == old(changes)[i],
        forall|i: int|
            old(changes).len() <= i < final(changes).len() ==> (#[trigger] final(changes)[i]).0@
                == column@,
{
    match value {
        Some(v) => {
            changes.push((column.to_owned(), Value::Text(v.clone())));
        },
        None => {},
    }
    proof {
        assert(cells_of(changes@) =~= cells_of(old(changes)@) + text_change(column@, *value));
    }
}

/// Notes the change of `column` to the number `value`, if there is a value.
pub fn note_number(changes: &mut Vec<(String, Value)>, column: &str, value: Option<i32>)
    ensures
        cells_of(final(changes)@) == cells_of(old(changes)@) + number_change(column@, value),
        final(changes).len() >= old(changes).len(),
        forall|i: int| 0 <= i < old(changes).len() ==> final(changes)[i] == old(changes)[i],
        forall|i: int|
            old(changes).len() <= i < final(changes).len() ==> (#[trigger] final(changes)[i]).0@
                == column@,
{
    match value {
        Some(v) => {
            changes.push((column.to_owned(), Value::Int(v)));
        },
        None => {},
    }
    proof {
        assert(cells_of(changes@) =~= cells_of(old(changes)@) + number_change(column@, value));
    }
}

/// The text `<column> = <number>` or the like: the words, then the decimal
/// text of the number.
pub fn numbered(words: &str, number: i32) -> (r: String)
    ensures
        r@ == words@ + decimal(number as int),
{
    let mut r = String::from_str(words);
    let d = decimal_string(number as i64);
    r.append(d.as_str());
    r
}

/// What was looked for, or the failure to find it with `message`.
pub fn found_or<T>(found: Option<T>, message: String) -> (r: ApiResult<T>)
    ensures
        match found {
            Some(x) => r == Ok::<T, ApiFailure>(x),
            None => fails(r, ErrorCode::NotFoundError, message@),
        },
{
    match found {
        Some(x) => Ok(x),
        None => Err(ApiFailure { code: ErrorCode::NotFoundError, description: message }),
    }
}

/// The statement without arguments.
pub fn without_arguments(sql: String) -> (s: Statement)
    ensures
        s@ == (sql@, Seq::<ValueModel>::empty()),
{
    let args: Vec<Value> = Vec::new();
    proof {
        assert(values_of(args@) =~= Seq::<ValueModel>::empty());
    }
    Statement { sql, args }
}

/// The statement with two arguments that are the numbers `first` and
/// `second`.
pub fn with_two_numbers(sql: String, first: i32, second: i32) -> (s: Statement)
    ensures
        s@ == (sql@, seq![ValueModel::Int(first), ValueModel::Int(second)]),
{
    let mut args: Vec<Value> = Vec::new();
    args.push(Value::Int(first));
    args.push(Value::Int(second));
    proof {
        assert(values_of(args@) =~= seq![ValueModel::Int(first), ValueModel::Int(second)]);
    }
    Statement { sql, args }
}

} // verus!
