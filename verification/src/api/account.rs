//! The own account: its bookings, its data, and changes to them.

use super::authorization::fails;
use super::{note_text, number_or, numbered, or_number, text_change, with_identity};
use crate::db::builder::select::SelectQuery;
use crate::db::row::{cells_of, values_of, Statement, Value, ValueModel};
use crate::db::schema::{Booking, Client, Person};
use crate::db::{build_select, select_seed, update_of, update_statement, Queryable};
use crate::proto::error::{ApiFailure, ApiResult, ErrorCode};
use crate::proto::schema::UpdateAccountInfoData;
use crate::text::decimal;
use vstd::prelude::*;
use vstd::string::*;

verus! {

/// The statement that lists the bookings of a client: at most `cnt` of
/// them, all where no count is given, after skipping `offset`, none where
/// no offset is given.
pub fn get_bookings(client_id: i32, cnt: Option<i32>, offset: Option<i32>) -> (s: Statement)
    ensures
        s@ == (
            (SelectQuery {
                filter: Some("ClientPersonID = $1"@),
                limit: Some(number_or(cnt, i32::MAX)),
                offset: Some(number_or(offset, 0)),
                ..select_seed::<Booking>()
            }).direct(),
            seq![ValueModel::Int(client_id)],
        ),
{
    let b = Booking::select_builder().filter("ClientPersonID = $1").limit(
        or_number(cnt, i32::MAX),
    ).offset(or_number(offset, 0));
    proof {
        reveal_strlit("*");
        reveal_strlit("ClientPersonID = $1");
    }
    with_identity(build_select::<Booking>(b), client_id)
}

/// The statement that reads the account of a person: the row of `Person`
/// without the password.
pub fn get_account_info(client_id: i32) -> (s: Statement)
    ensures
        s@ == (
            (SelectQuery {
                columns: Some("ID,Login,Name,Email"@),
                filter: Some("ID = $1"@),
                ..select_seed::<Person>()
            }).direct(),
            seq![ValueModel::Int(client_id)],
        ),
{
    let b = Client::select_builder().columns("ID,Login,Name,Email").from_tables("Person").filter(
        "ID = $1",
    );
    proof {
        reveal_strlit("ID,Login,Name,Email");
        reveal_strlit("ID = $1");
    }
    with_identity(build_select::<Person>(b), client_id)
}

/// The statement that finds the person with this identity and password: a
/// change of password runs it with the old password first. It is needed
/// only where a new password is asked for, and cannot be made without the
/// old one.
pub fn old_password_check(client_id: i32, data: &UpdateAccountInfoData) -> (r: ApiResult<
    Option<Statement>,
>)
    ensures
        data.NewPassHash is None ==> r is Ok && r->Ok_0 is None,
        data.NewPassHash is Some && data.OldPassHash is None ==> fails(
            r,
            ErrorCode::IncompleteDataError,
            "Missing OldPassHash"@,
        ),
        data.NewPassHash is Some && data.OldPassHash is Some ==> r is Ok && r->Ok_0 is Some
            && r->Ok_0->0@ == (
            (SelectQuery {
                filter: Some("ID = $1 and PassHash = $2"@),
                ..select_seed::<Person>()
            }).direct(),
            seq![ValueModel::Int(client_id), ValueModel::Text(data.OldPassHash->0@)],
        ),
{
    if data.NewPassHash.is_none() {
        return Ok(None);
    }
    match &data.OldPassHash {
        Some(old_hash) => {
            let b = Person::select_builder().filter("ID = $1 and PassHash = $2");
            proof {
                reveal_strlit("*");
                reveal_strlit("ID = $1 and PassHash = $2");
            }
            let sql = build_select::<Person>(b);
            let mut args: Vec<Value> = Vec::new();
            args.push(Value::Int(client_id));
            args.push(Value::Text(old_hash.clone()));
            proof {
                assert(values_of(args@) =~= seq![
                    ValueModel::Int(client_id),
                    ValueModel::Text(old_hash@),
                ]);
            }
            Ok(Some(Statement { sql, args }))
        },
        None => Err(ApiFailure::from_str(ErrorCode::IncompleteDataError, "Missing OldPassHash")),
    }
}

/// The changes that the request asks for: the password first, then the
/// name, then the address.
pub open spec fn account_changes(data: UpdateAccountInfoData) -> Seq<(Seq<char>, ValueModel)> {
    text_change("PassHash"@, data.NewPassHash) + text_change("Name"@, data.NewName) + text_change(
        "Email"@,
        data.NewEmail,
    )
}

/// Decides a change of the own account. `matches` is the number of rows
/// that the statement of [`old_password_check`] found; it counts only
/// where a new password is asked for. A new password without the old one
/// is a failure, and so is an old password that no row matches. Else the
/// statement that makes the changes comes back, or nothing where the
/// request asks for no change.
pub fn update_account_info(client_id: i32, data: &UpdateAccountInfoData, matches: usize) -> (r:
    ApiResult<Option<Statement>>)
    ensures
        data.NewPassHash is Some && data.OldPassHash is None ==> fails(
            r,
            ErrorCode::IncompleteDataError,
            "Missing OldPassHash"@,
        ),
        data.NewPassHash is Some && data.OldPassHash is Some && matches == 0 ==> fails(
            r,
            ErrorCode::OldPasswordIsInvalidError,
            "Old password is invalid"@,
        ),
        !(data.NewPassHash is Some && (data.OldPassHash is None || matches == 0)) ==> r is Ok && (
        if account_changes(*data).len() == 0 {
            r->Ok_0 is None
        } else {
            r->Ok_0 is Some && r->Ok_0->0@ == update_of::<Person>(
                "ID="@ + decimal(client_id as int),
                account_changes(*data),
            )
        }),
{
    if data.NewPassHash.is_some() {
        if data.OldPassHash.is_none() {
            return Err(
                ApiFailure::from_str(ErrorCode::IncompleteDataError, "Missing OldPassHash"),
            );
        }
        if matches == 0 {
            return Err(
                ApiFailure::from_str(
                    ErrorCode::OldPasswordIsInvalidError,
                    "Old password is invalid",
                ),
            );
        }
    }
    let mut changes: Vec<(String, Value)> = Vec::new();
    proof {
        assert(cells_of(changes@) =~= Seq::<(Seq<char>, ValueModel)>::empty());
    }
    note_text(&mut changes, "PassHash", &data.NewPassHash);
    note_text(&mut changes, "Name", &data.NewName);
    note_text(&mut changes, "Email", &data.NewEmail);
    proof {
        reveal_strlit("PassHash");
        reveal_strlit("Name");
        reveal_strlit("Email");
        assert(cells_of(changes@) =~= account_changes(*data));
    }
    let filter = numbered("ID=", client_id);
    Ok(update_statement::<Person>(filter.as_str(), &changes))
}

} // verus!
