//! The levels of rooms and clients that a rule set lays down, and their
//! storing for a hotel.

use super::authorization::fails;
use crate::db::builder::select::SelectQuery;
use crate::db::row::{values_of, Statement, Value, ValueModel};
use crate::db::schema;
use crate::db::schema::{Hotel, RuleSet};
use crate::db::{build_select, insert_seed, insert_values, select_seed, Insertable, Queryable};
use crate::proto::error::{ApiFailure, ApiResult, ErrorCode};
use vstd::prelude::*;
use vstd::string::*;

verus! {

/// A level of rooms as a rule set's body writes it.
#[derive(Debug, Clone, PartialEq, Eq)]
pub struct RoomLevel {
    pub Name: Option<String>,
    pub PerNight: i32,
    pub Level: i32,
}

/// A level of clients as a rule set's body writes it.
#[derive(Debug, Clone, PartialEq, Eq)]
pub struct ClientLevel {
    pub Name: Option<String>,
    pub Discount: i32,
    pub BookingsAmount: i32,
}

/// The body of a rule set.
#[derive(Debug, Clone, PartialEq, Eq)]
pub struct Rules {
    pub RoomLevels: Vec<RoomLevel>,
    pub ClientLevels: Vec<ClientLevel>,
}

/// The room level with this name, price and number.
pub open spec fn is_room_level(x: RoomLevel, name: Seq<char>, per_night: i32, level: i32) -> bool {
    x.Name is Some && x.Name->0@ == name && x.PerNight == per_night && x.Level == level
}

/// The client level without a name, with this discount from this number of
/// bookings on.
pub open spec fn is_client_level(x: ClientLevel, discount: i32, bookings: i32) -> bool {
    x.Name is None && x.Discount == discount && x.BookingsAmount == bookings
}

/// A level of rooms with a name.
fn room_level(name: &str, per_night: i32, level: i32) -> (r: RoomLevel)
    ensures
        is_room_level(r, name@, per_night, level),
{
    RoomLevel { Name: Some(name.to_owned()), PerNight: per_night, Level: level }
}

/// A level of clients without a name.
fn client_level(discount: i32, bookings: i32) -> (r: ClientLevel)
    ensures
        is_client_level(r, discount, bookings),
{
    ClientLevel { Name: None, Discount: discount, BookingsAmount: bookings }
}

/// The rules of the default rule set: four levels of rooms from 100 to 400
/// a night, and four levels of clients with discounts of 0, 3, 5 and 10
/// percent from 0, 10, 20 and 50 bookings on.
pub fn default_rules() -> (r: Rules)
    ensures
        r.RoomLevels.len() == 4,
        is_room_level(r.RoomLevels[0], "Ecomony"@, 100, 0),
        is_room_level(r.RoomLevels[1], "Single"@, 200, 1),
        is_room_level(r.RoomLevels[2], "Double"@, 300, 2),
        is_room_level(r.RoomLevels[3], "Suit"@, 400, 3),
        r.ClientLevels.len() == 4,
        is_client_level(r.ClientLevels[0], 0, 0),
        is_client_level(r.ClientLevels[1], 3, 10),
        is_client_level(r.ClientLevels[2], 5, 20),
        is_client_level(r.ClientLevels[3], 10, 50),
{
    let mut rooms: Vec<RoomLevel> = Vec::new();
    rooms.push(room_level("Ecomony", 100, 0));
    rooms.push(room_level("Single", 200, 1));
    rooms.push(room_level("Double", 300, 2));
    rooms.push(room_level("Suit", 400, 3));
    let mut clients: Vec<ClientLevel> = Vec::new();
    clients.push(client_level(0, 0));
    clients.push(client_level(3, 10));
    clients.push(client_level(5, 20));
    clients.push(client_level(10, 50));
    Rules { RoomLevels: rooms, ClientLevels: clients }
}

/// The statement that finds the default rule set.
pub fn default_ruleset_id() -> (s: Statement)
    ensures
        s@ == (
            (SelectQuery { filter: Some("IsDefault = $1"@), ..select_seed::<RuleSet>() }).direct(),
            seq![ValueModel::Bool(true)],
        ),
{
    let b = RuleSet::select_builder().filter("IsDefault = $1");
    proof {
        reveal_strlit("*");
        reveal_strlit("IsDefault = $1");
    }
    let sql = build_select::<RuleSet>(b);
    let mut args: Vec<Value> = Vec::new();
    args.push(Value::Bool(true));
    proof {
        assert(values_of(args@) =~= seq![ValueModel::Bool(true)]);
    }
    Statement { sql, args }
}

/// The identity of the last of the rule sets found, if one was found.
pub fn last_id(found: &Vec<RuleSet>) -> (r: Option<i32>)
    ensures
        found.len() == 0 ==> r is None,
        found.len() > 0 ==> r == Some(found[found.len() - 1].ID),
{
    if found.len() == 0 {
        None
    } else {
        Some(found[found.len() - 1].ID)
    }
}

/// The default rule set with its body: it has no manager and the name
/// `Default`.
pub fn default_ruleset(body: String) -> (r: RuleSet)
    ensures
        r.ID == 0,
        r.ManagerPersonID is None,
        r.Name@ == "Default"@,
        r.Body == body,
        r.IsDefault,
{
    RuleSet {
        ID: 0,
        ManagerPersonID: None,
        Name: String::from_str("Default"),
        Body: body,
        IsDefault: true,
    }
}

/// The rule set of a hotel, or the failure to find the hotel.
pub fn hotel_ruleset(hotel: &Option<Hotel>) -> (r: ApiResult<i32>)
    ensures
        match hotel {
            Some(h) => r == Ok::<i32, ApiFailure>(h.RuleSetID),
            None => fails(r, ErrorCode::NotFoundError, "No such Hotel"@),
        },
{
    match hotel {
        Some(h) => Ok(h.RuleSetID),
        None => Err(ApiFailure::from_str(ErrorCode::NotFoundError, "No such Hotel")),
    }
}

/// The body of a rule set, or the failure to find the rule set.
pub fn ruleset_body(ruleset: Option<RuleSet>) -> (r: ApiResult<String>)
    ensures
        match ruleset {
            Some(x) => r == Ok::<String, ApiFailure>(x.Body),
            None => fails(r, ErrorCode::NotFoundError, "No such RuleSet"@),
        },
{
    match ruleset {
        Some(x) => Ok(x.Body),
        None => Err(ApiFailure::from_str(ErrorCode::NotFoundError, "No such RuleSet")),
    }
}

/// The row of a room level of the rule set `ruleset_id`.
pub open spec fn room_row(level: RoomLevel, ruleset_id: i32) -> schema::RoomLevel {
    schema::RoomLevel {
        Level: level.Level,
        RuleSetID: ruleset_id,
        LevelName: level.Name,
        PerNight: level.PerNight,
    }
}

/// The row of a client level of the rule set `ruleset_id`.
pub open spec fn client_row(level: ClientLevel, ruleset_id: i32) -> schema::ClientLevel {
    schema::ClientLevel {
        BookingsAmount: level.BookingsAmount,
        RuleSetID: ruleset_id,
        LevelName: level.Name,
        DiscountPercentage: level.Discount,
    }
}

/// A copy of an optional text.
fn copy_name(name: &Option<String>) -> (r: Option<String>)
    ensures
        r == *name,
{
    match name {
        Some(s) => Some(s.clone()),
        None => None,
    }
}

/// The statements that store the levels of a rule set for the rule set
/// `ruleset_id`: one for each room level in the order of the rules, then
/// one for each client level. A level that is stored already is no fault
/// when they are run.
pub fn process_rules(rules: &Rules, ruleset_id: i32) -> (r: Vec<Statement>)
    ensures
        r.len() == rules.RoomLevels.len() + rules.ClientLevels.len(),
        forall|i: int|
            0 <= i < rules.RoomLevels.len() ==> (#[trigger] r[i])@ == (
                insert_seed::<schema::RoomLevel>().direct(),
                insert_values(&room_row(rules.RoomLevels[i], ruleset_id)),
            ),
        forall|i: int|
            0 <= i < rules.ClientLevels.len() ==> (#[trigger] r[rules.RoomLevels.len() + i])@ == (
                insert_seed::<schema::ClientLevel>().direct(),
                insert_values(&client_row(rules.ClientLevels[i], ruleset_id)),
            ),
{
    let mut r: Vec<Statement> = Vec::new();
    let rooms = rules.RoomLevels.len();
    let clients = rules.ClientLevels.len();
    let mut i: usize = 0;
    while i < rooms
        invariant
            i <= rooms,
            rooms == rules.RoomLevels.len(),
            r.len() == i,
            forall|k: int|
                0 <= k < i ==> (#[trigger] r[k])@ == (
                    insert_seed::<schema::RoomLevel>().direct(),
                    insert_values(&room_row(rules.RoomLevels[k], ruleset_id)),
                ),
        decreases rooms - i,
    {
        let level = &rules.RoomLevels[i];
        let row = schema::RoomLevel {
            Level: level.Level,
            RuleSetID: ruleset_id,
            LevelName: copy_name(&level.Name),
            PerNight: level.PerNight,
        };
        r.push(Statement { sql: schema::RoomLevel::insert_query(), args: row.insert_args() });
        i += 1;
    }
    let mut j: usize = 0;
    while j < clients
        invariant
            j <= clients,
            rooms == rules.RoomLevels.len(),
            clients == rules.ClientLevels.len(),
            r.len() == rooms + j,
            forall|k: int|
                0 <= k < rooms ==> (#[trigger] r[k])@ == (
                    insert_seed::<schema::RoomLevel>().direct(),
                    insert_values(&room_row(rules.RoomLevels[k], ruleset_id)),
                ),
            forall|k: int|
                0 <= k < j ==> (#[trigger] r[rooms + k])@ == (
                    insert_seed::<schema::ClientLevel>().direct(),
                    insert_values(&client_row(rules.ClientLevels[k], ruleset_id)),
                ),
        decreases clients - j,
    {
        let level = &rules.ClientLevels[j];
        let row = schema::ClientLevel {
            BookingsAmount: level.BookingsAmount,
            RuleSetID: ruleset_id,
            LevelName: copy_name(&level.Name),
            DiscountPercentage: level.Discount,
        };
        r.push(Statement { sql: schema::ClientLevel::insert_query(), args: row.insert_args() });
        j += 1;
    }
    r
}

} // verus!
