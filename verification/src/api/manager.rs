//! Rule sets and the managers who write them.

use super::authorization::{fails, Authorized};
use super::{found_or, note_number, note_text, number_change, numbered, text_change, with_identity};
use crate::db::builder::delete::DeleteQuery;
use crate::db::builder::select::SelectQuery;
use crate::db::row::{cells_of, Statement, Value, ValueModel};
use crate::db::schema::RuleSet;
use crate::db::{
    build_delete, build_select, delete_seed, insert_seed, insert_values, select_seed, update_of,
    update_statement, Deletable, Insertable, QueryBuilder, Queryable,
};
use crate::proto::error::{ApiFailure, ApiResult, ErrorCode};
use crate::proto::schema::{NewRuleSet, UpdateRuleSet};
use crate::text::decimal;
use vstd::prelude::*;
use vstd::string::*;

verus! {

/// The statement that lists the rule sets of a manager.
pub fn get_rulesets(user_id: i32) -> (s: Statement)
    ensures
        s@ == (
            (SelectQuery {
                filter: Some("ManagerPersonID = $1"@),
                ..select_seed::<RuleSet>()
            }).direct(),
            seq![ValueModel::Int(user_id)],
        ),
{
    let b = RuleSet::select_builder().filter("ManagerPersonID = $1");
    proof {
        reveal_strlit("*");
        reveal_strlit("ManagerPersonID = $1");
    }
    with_identity(build_select::<RuleSet>(b), user_id)
}

/// The statement that reads the rule set `ruleset_id`.
pub fn ruleset_by_id(ruleset_id: i32) -> (s: Statement)
    ensures
        s@ == (
            (SelectQuery { filter: Some("ID = $1"@), ..select_seed::<RuleSet>() }).direct(),
            seq![ValueModel::Int(ruleset_id)],
        ),
{
    let b = RuleSet::select_builder().filter("ID = $1");
    proof {
        reveal_strlit("*");
        reveal_strlit("ID = $1");
    }
    with_identity(build_select::<RuleSet>(b), ruleset_id)
}

/// Decides whether the caller may read a rule set: only managers may. The
/// statement that reads it comes back.
pub fn get_ruleset(user: &Authorized, ruleset_id: i32) -> (r: ApiResult<Statement>)
    ensures
        !user.roles.Manager ==> fails(
            r,
            ErrorCode::NotAuthorizedError,
            "Only manager can access rulesets"@,
        ),
        user.roles.Manager ==> r is Ok && r->Ok_0@ == (
            (SelectQuery { filter: Some("ID = $1"@), ..select_seed::<RuleSet>() }).direct(),
            seq![ValueModel::Int(ruleset_id)],
        ),
{
    if !user.roles.Manager {
        return Err(
            ApiFailure::from_str(
                ErrorCode::NotAuthorizedError,
                "Only manager can access rulesets",
            ),
        );
    }
    Ok(ruleset_by_id(ruleset_id))
}

/// The rule set that the statement of [`get_ruleset`] found, or the
/// failure to find it.
pub fn ruleset_found(ruleset_id: i32, ruleset: Option<RuleSet>) -> (r: ApiResult<RuleSet>)
    ensures
        match ruleset {
            Some(x) => r == Ok::<RuleSet, ApiFailure>(x),
            None => fails(
                r,
                ErrorCode::NotFoundError,
                "RuleSet "@ + decimal(ruleset_id as int) + " not found"@,
            ),
        },
{
    let mut message = numbered("RuleSet ", ruleset_id);
    message.append(" not found");
    found_or(ruleset, message)
}

/// Only managers may add rule sets or change them.
pub fn may_create(user: &Authorized) -> (r: ApiResult<()>)
    ensures
        user.roles.Manager ==> r is Ok,
        !user.roles.Manager ==> fails(
            r,
            ErrorCode::NotAuthorizedError,
            "Only manager can create rulesets"@,
        ),
{
    if !user.roles.Manager {
        return Err(
            ApiFailure::from_str(
                ErrorCode::NotAuthorizedError,
                "Only manager can create rulesets",
            ),
        );
    }
    Ok(())
}

/// The rule set that a manager adds.
pub open spec fn new_ruleset(user_id: i32, new: NewRuleSet) -> RuleSet {
    RuleSet {
        ID: 0,
        ManagerPersonID: Some(user_id),
        Name: new.Name,
        Body: new.Body,
        IsDefault: false,
    }
}

/// Decides the addition of a rule set: only managers may add one. It is the
/// caller's, and not the default one. The statement that stores it comes
/// back.
pub fn put_ruleset(user: &Authorized, new: NewRuleSet) -> (r: ApiResult<Statement>)
    ensures
        !user.roles.Manager ==> fails(
            r,
            ErrorCode::NotAuthorizedError,
            "Only manager can create rulesets"@,
        ),
        user.roles.Manager ==> r is Ok && r->Ok_0@ == (
            insert_seed::<RuleSet>().direct(),
            insert_values(&new_ruleset(user.id, new)),
        ),
{
    match may_create(user) {
        Ok(_) => {},
        Err(e) => {
            return Err(e);
        },
    }
    let ruleset = RuleSet {
        ID: 0,
        ManagerPersonID: Some(user.id),
        Name: new.Name,
        Body: new.Body,
        IsDefault: false,
    };
    Ok(Statement { sql: RuleSet::insert_query(), args: ruleset.insert_args() })
}

/// The changes that the request asks for on a rule set, in the order of the
/// statement's placeholders: a rule set that has no manager yet becomes the
/// caller's.
pub open spec fn ruleset_changes(user_id: i32, current: RuleSet, update: UpdateRuleSet) -> Seq<
    (Seq<char>, ValueModel),
> {
    number_change(
        "ManagerPersonID"@,
        if current.ManagerPersonID is None {
            Some(user_id)
        } else {
            None
        },
    ) + text_change("Name"@, update.Name) + text_change("Body"@, update.Body)
}

/// Decides a change of a rule set from the rule set as it is stored. Only
/// managers may change rule sets, and only their own or one without a
/// manager. The statement that makes the changes comes back, or nothing
/// where there is no change.
pub fn update_ruleset(
    ruleset_id: i32,
    user: &Authorized,
    update: &UpdateRuleSet,
    current: &Option<RuleSet>,
) -> (r: ApiResult<Option<Statement>>)
    ensures
        !user.roles.Manager ==> fails(
            r,
            ErrorCode::NotAuthorizedError,
            "Only manager can create rulesets"@,
        ),
        user.roles.Manager && current is None ==> fails(
            r,
            ErrorCode::NotFoundError,
            "No such ruleset"@,
        ),
        user.roles.Manager && current is Some && current->0.ManagerPersonID is Some
            && current->0.ManagerPersonID->0 != user.id ==> fails(
            r,
            ErrorCode::NotAuthorizedError,
            "Only manager that created ruleset can edit it"@,
        ),
        user.roles.Manager && current is Some && (current->0.ManagerPersonID is None
            || current->0.ManagerPersonID->0 == user.id) ==> r is Ok && (if ruleset_changes(
            user.id,
            current->0,
            *update,
        ).len() == 0 {
            r->Ok_0 is None
        } else {
            r->Ok_0 is Some && r->Ok_0->0@ == update_of::<RuleSet>(
                "ID = "@ + decimal(ruleset_id as int),
                ruleset_changes(user.id, current->0, *update),
            )
        }),
{
    match may_create(user) {
        Ok(_) => {},
        Err(e) => {
            return Err(e);
        },
    }
    let stored = match current {
        Some(x) => x,
        None => {
            return Err(ApiFailure::from_str(ErrorCode::NotFoundError, "No such ruleset"));
        },
    };
    let mut changes: Vec<(String, Value)> = Vec::new();
    proof {
        assert(cells_of(changes@) =~= Seq::<(Seq<char>, ValueModel)>::empty());
    }
    match stored.ManagerPersonID {
        Some(manager_id) => {
            if manager_id != user.id {
                return Err(
                    ApiFailure::from_str(
                        ErrorCode::NotAuthorizedError,
                        "Only manager that created ruleset can edit it",
                    ),
                );
            }
            note_number(&mut changes, "ManagerPersonID", None);
        },
        None => {
            note_number(&mut changes, "ManagerPersonID", Some(user.id));
        },
    }
    note_text(&mut changes, "Name", &update.Name);
    note_text(&mut changes, "Body", &update.Body);
    proof {
        reveal_strlit("ManagerPersonID");
        reveal_strlit("Name");
        reveal_strlit("Body");
        assert(cells_of(changes@) =~= ruleset_changes(user.id, *stored, *update));
    }
    let filter = numbered("ID = ", ruleset_id);
    Ok(update_statement::<RuleSet>(filter.as_str(), &changes))
}

/// The rule set is removed at the request of `user_id`: it has a manager,
/// and the manager is somebody else.
pub open spec fn removable(stored: RuleSet, user_id: i32) -> bool {
    stored.ManagerPersonID is Some && stored.ManagerPersonID->0 != user_id
}

/// Decides the removal of a rule set from the rule set as it is stored. A
/// rule set without a manager is never removed, and a manager's rule set is
/// not removed at the manager's own request. The statement that removes it
/// comes back.
pub fn delete_ruleset(ruleset_id: i32, user: &Authorized, current: &Option<RuleSet>) -> (r:
    ApiResult<Statement>)
    ensures
        current is None ==> fails(r, ErrorCode::NotFoundError, "No such ruleset"@),
        current is Some && !removable(current->0, user.id) ==> fails(
            r,
            ErrorCode::NotAuthorizedError,
            "Only creator of ruleset can delete it"@,
        ),
        current is Some && removable(current->0, user.id) ==> r is Ok && r->Ok_0@ == (
            (DeleteQuery { filter: Some("ID = $1"@), ..delete_seed::<RuleSet>() }).direct(),
            seq![ValueModel::Int(ruleset_id)],
        ),
{
    let stored = match current {
        Some(x) => x,
        None => {
            return Err(ApiFailure::from_str(ErrorCode::NotFoundError, "No such ruleset"));
        },
    };
    let refused = match stored.ManagerPersonID {
        Some(manager_id) => manager_id == user.id,
        None => true,
    };
    if refused {
        return Err(
            ApiFailure::from_str(
                ErrorCode::NotAuthorizedError,
                "Only creator of ruleset can delete it",
            ),
        );
    }
    let b = RuleSet::delete_builder().filter("ID = $1");
    Ok(with_identity(build_delete::<RuleSet>(b), ruleset_id))
}

} // verus!
