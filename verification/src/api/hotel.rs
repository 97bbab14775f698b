//! Hotels, their rooms, reviews and employees.

use super::authorization::{fails, Authorized};
use super::{
    found_or, note_number, note_text, number_change, number_or, numbered, or_number, text_change,
    with_identity, with_two_numbers, without_arguments,
};
use crate::db::builder::delete::DeleteQuery;
use crate::db::builder::select::{SelectQuery, SelectQueryBuilder};
use crate::db::row::{cells_of, Statement, Value, ValueModel};
use crate::db::schema::{EmployedIn, Hotel, Review, Room};
use crate::db::{
    build_delete, build_join, build_select, delete_seed, insert_seed, insert_values, select_seed,
    update_of, update_statement, Deletable, Insertable, QueryBuilder, Queryable,
};
use crate::proto::error::{ApiFailure, ApiResult, ErrorCode};
use crate::proto::schema::{NewHotel, NewRoom, RoleSet, Roles, UpdateHotel, UpdateRoom};
use crate::text::{decimal, decimal_string};
use vstd::prelude::*;
use vstd::string::*;

verus! {

/// The person owns the hotel or works in it.
pub open spec fn serves(roles: RoleSet, hotel_id: i32) -> bool {
    roles.owner_of(hotel_id) || roles.works_in(hotel_id)
}

/// Only who owns a hotel or works in it may change it.
pub fn authority(roles: &Roles, hotel_id: i32) -> (r: ApiResult<()>)
    ensures
        serves(roles@, hotel_id) ==> r is Ok,
        !serves(roles@, hotel_id) ==> fails(
            r,
            ErrorCode::NotAuthorizedError,
            "Not owner or employee of hotel "@ + decimal(hotel_id as int),
        ),
{
    if !roles.owns(hotel_id) && !roles.employed_in(hotel_id) {
        return Err(
            ApiFailure {
                code: ErrorCode::NotAuthorizedError,
                description: numbered("Not owner or employee of hotel ", hotel_id),
            },
        );
    }
    Ok(())
}

/// The statement that lists hotels: at most `cnt` of them, all where no
/// count is given, after skipping `offset`, none where no offset is given.
pub fn get_hotels(cnt: Option<i32>, offset: Option<i32>) -> (s: Statement)
    ensures
        s@ == (
            (SelectQuery {
                limit: Some(number_or(cnt, i32::MAX)),
                offset: Some(number_or(offset, 0)),
                ..select_seed::<Hotel>()
            }).direct(),
            Seq::<ValueModel>::empty(),
        ),
{
    let b = Hotel::select_builder().limit(or_number(cnt, i32::MAX)).offset(or_number(offset, 0));
    proof {
        reveal_strlit("*");
    }
    without_arguments(build_select::<Hotel>(b))
}

/// The statement that reads the hotel `hotel_id`.
pub fn get_hotel(hotel_id: i32) -> (s: Statement)
    ensures
        s@ == (
            (SelectQuery { filter: Some("ID = $1"@), ..select_seed::<Hotel>() }).direct(),
            seq![ValueModel::Int(hotel_id)],
        ),
{
    let b = Hotel::select_builder().filter("ID = $1");
    proof {
        reveal_strlit("*");
        reveal_strlit("ID = $1");
    }
    with_identity(build_select::<Hotel>(b), hotel_id)
}

/// The hotel that the statement of [`get_hotel`] found, or the failure to
/// find it.
pub fn hotel_found(hotel_id: i32, hotel: Option<Hotel>) -> (r: ApiResult<Hotel>)
    ensures
        match hotel {
            Some(h) => r == Ok::<Hotel, ApiFailure>(h),
            None => fails(
                r,
                ErrorCode::NotFoundError,
                "No Hotel with id "@ + decimal(hotel_id as int) + " found"@,
            ),
        },
{
    let mut message = numbered("No Hotel with id ", hotel_id);
    message.append(" found");
    found_or(hotel, message)
}

/// Only owners may add hotels.
pub fn may_add(user: &Authorized) -> (r: ApiResult<()>)
    ensures
        user.roles.Owner ==> r is Ok,
        !user.roles.Owner ==> fails(
            r,
            ErrorCode::NotAuthorizedError,
            "Only owner can add a hotel"@,
        ),
{
    if !user.roles.Owner {
        return Err(
            ApiFailure::from_str(ErrorCode::NotAuthorizedError, "Only owner can add a hotel"),
        );
    }
    Ok(())
}

/// Decides the addition of a hotel. Only an owner may add one. The hotel
/// belongs to the caller, follows the default rule set, and has neither
/// photos nor a rating yet.
pub fn put_hotel(user: &Authorized, new_hotel: NewHotel, default_ruleset_id: i32) -> (r: ApiResult<
    Hotel,
>)
    ensures
        !user.roles.Owner ==> fails(
            r,
            ErrorCode::NotAuthorizedError,
            "Only owner can add a hotel"@,
        ),
        user.roles.Owner ==> r is Ok && r->Ok_0 == (Hotel {
            ID: 0,
            OwnerPersonID: user.id,
            RuleSetID: default_ruleset_id,
            CityID: new_hotel.CityID,
            PhotoSetID: None,
            Name: new_hotel.Name,
            Description: new_hotel.Description,
            Rating: None,
            Stars: new_hotel.Stars,
        }),
{
    match may_add(user) {
        Ok(_) => {},
        Err(e) => {
            return Err(e);
        },
    }
    Ok(
        Hotel {
            ID: 0,
            OwnerPersonID: user.id,
            RuleSetID: default_ruleset_id,
            CityID: new_hotel.CityID,
            PhotoSetID: None,
            Name: new_hotel.Name,
            Description: new_hotel.Description,
            Rating: None,
            Stars: new_hotel.Stars,
        },
    )
}

/// The changes that the request asks for on a hotel, in the order of the
/// statement's placeholders.
pub open spec fn hotel_changes(update: UpdateHotel) -> Seq<(Seq<char>, ValueModel)> {
    number_change("RuleSetID"@, update.RuleSetID) + text_change("Name"@, update.Name) + text_change(
        "Description"@,
        update.Description,
    ) + number_change("PhotoSetID"@, update.PhotoSetID) + number_change("Stars"@, update.Stars)
}

/// Only owners and managers may change hotels, and only one that they own
/// or work in.
pub fn may_update(hotel_id: i32, user: &Authorized) -> (r: ApiResult<()>)
    ensures
        !user.roles.Owner && !user.roles.Manager ==> fails(
            r,
            ErrorCode::NotAuthorizedError,
            "Only owner and manager update hotel's info"@,
        ),
        (user.roles.Owner || user.roles.Manager) && !serves(user.roles@, hotel_id) ==> fails(
            r,
            ErrorCode::NotAuthorizedError,
            "Not owner or employee of hotel "@ + decimal(hotel_id as int),
        ),
        (user.roles.Owner || user.roles.Manager) && serves(user.roles@, hotel_id) ==> r is Ok,
{
    if !user.roles.Owner && !user.roles.Manager {
        return Err(
            ApiFailure::from_str(
                ErrorCode::NotAuthorizedError,
                "Only owner and manager update hotel's info",
            ),
        );
    }
    authority(&user.roles, hotel_id)
}

/// Decides a change of a hotel. Only owners and managers may change
/// hotels, and only one that they own or work in. Else the statement that
/// makes the changes comes back, or nothing where the request asks for no
/// change.
pub fn update_hotel(hotel_id: i32, user: &Authorized, update: &UpdateHotel) -> (r: ApiResult<
    Option<Statement>,
>)
    ensures
        !user.roles.Owner && !user.roles.Manager ==> fails(
            r,
            ErrorCode::NotAuthorizedError,
            "Only owner and manager update hotel's info"@,
        ),
        (user.roles.Owner || user.roles.Manager) && !serves(user.roles@, hotel_id) ==> fails(
            r,
            ErrorCode::NotAuthorizedError,
            "Not owner or employee of hotel "@ + decimal(hotel_id as int),
        ),
        (user.roles.Owner || user.roles.Manager) && serves(user.roles@, hotel_id) ==> r is Ok && (
        if hotel_changes(*update).len() == 0 {
            r->Ok_0 is None
        } else {
            r->Ok_0 is Some && r->Ok_0->0@ == update_of::<Hotel>(
                "ID = "@ + decimal(hotel_id as int),
                hotel_changes(*update),
            )
        }),
{
    match may_update(hotel_id, user) {
        Ok(_) => {},
        Err(e) => {
            return Err(e);
        },
    }
    let mut changes: Vec<(String, Value)> = Vec::new();
    proof {
        assert(cells_of(changes@) =~= Seq::<(Seq<char>, ValueModel)>::empty());
    }
    note_number(&mut changes, "RuleSetID", update.RuleSetID);
    note_text(&mut changes, "Name", &update.Name);
    note_text(&mut changes, "Description", &update.Description);
    note_number(&mut changes, "PhotoSetID", update.PhotoSetID);
    note_number(&mut changes, "Stars", update.Stars);
    proof {
        reveal_strlit("RuleSetID");
        reveal_strlit("Name");
        reveal_strlit("Description");
        reveal_strlit("PhotoSetID");
        reveal_strlit("Stars");
        assert(cells_of(changes@) =~= hotel_changes(*update));
    }
    let filter = numbered("ID = ", hotel_id);
    Ok(update_statement::<Hotel>(filter.as_str(), &changes))
}

/// Whether a change of a hotel gives it another rule set: its levels then
/// have to be stored anew.
pub fn rules_changed(update: &UpdateHotel) -> (r: bool)
    ensures
        r == update.RuleSetID is Some,
{
    update.RuleSetID.is_some()
}

/// The statement that lists the rooms of a hotel.
pub fn get_rooms(hotel_id: i32, cnt: Option<i32>, offset: Option<i32>) -> (s: Statement)
    ensures
        s@ == (
            (SelectQuery {
                filter: Some("HotelID = $1"@),
                limit: Some(number_or(cnt, i32::MAX)),
                offset: Some(number_or(offset, 0)),
                ..select_seed::<Room>()
            }).direct(),
            seq![ValueModel::Int(hotel_id)],
        ),
{
    let b = Room::select_builder().filter("HotelID = $1").limit(or_number(cnt, i32::MAX)).offset(
        or_number(offset, 0),
    );
    proof {
        reveal_strlit("*");
        reveal_strlit("HotelID = $1");
    }
    with_identity(build_select::<Room>(b), hotel_id)
}

/// The statement that reads the room `room_number` of a hotel.
pub fn get_room(hotel_id: i32, room_number: i32) -> (s: Statement)
    ensures
        s@ == (
            (SelectQuery {
                filter: Some("HotelID = $1 and RoomNumber = $2"@),
                ..select_seed::<Room>()
            }).direct(),
            seq![ValueModel::Int(hotel_id), ValueModel::Int(room_number)],
        ),
{
    let b = Room::select_builder().filter("HotelID = $1 and RoomNumber = $2");
    proof {
        reveal_strlit("*");
        reveal_strlit("HotelID = $1 and RoomNumber = $2");
    }
    with_two_numbers(build_select::<Room>(b), hotel_id, room_number)
}

/// The room that the statement of [`get_room`] found, or the failure to
/// find it.
pub fn room_found(hotel_id: i32, room_number: i32, room: Option<Room>) -> (r: ApiResult<Room>)
    ensures
        match room {
            Some(x) => r == Ok::<Room, ApiFailure>(x),
            None => fails(
                r,
                ErrorCode::NotFoundError,
                "Room number "@ + decimal(room_number as int) + " not found in hotel "@ + decimal(
                    hotel_id as int,
                ),
            ),
        },
{
    let mut message = numbered("Room number ", room_number);
    message.append(" not found in hotel ");
    let hotel = decimal_string(hotel_id as i64);
    message.append(hotel.as_str());
    found_or(room, message)
}

/// The room that a request adds to a hotel.
pub open spec fn new_room(hotel_id: i32, room: NewRoom) -> Room {
    Room {
        HotelID: hotel_id,
        RoomNumber: room.RoomNumber,
        RoomLevel: room.RoomLevelID,
        PhotoSetID: room.PhotoSetID,
    }
}

/// Decides the addition of a room to a hotel: only who owns the hotel or
/// works in it may add one. The statement that stores the room comes back.
pub fn put_room(hotel_id: i32, user: &Authorized, room: &NewRoom) -> (r: ApiResult<Statement>)
    ensures
        !serves(user.roles@, hotel_id) ==> fails(
            r,
            ErrorCode::NotAuthorizedError,
            "Not owner or employee of hotel "@ + decimal(hotel_id as int),
        ),
        serves(user.roles@, hotel_id) ==> r is Ok && r->Ok_0@ == (
            insert_seed::<Room>().direct(),
            insert_values(&new_room(hotel_id, *room)),
        ),
{
    match authority(&user.roles, hotel_id) {
        Ok(_) => {},
        Err(e) => {
            return Err(e);
        },
    }
    let stored = Room {
        HotelID: hotel_id,
        RoomNumber: room.RoomNumber,
        RoomLevel: room.RoomLevelID,
        PhotoSetID: room.PhotoSetID,
    };
    Ok(Statement { sql: Room::insert_query(), args: stored.insert_args() })
}

/// The changes that the request asks for on a room, in the order of the
/// statement's placeholders.
pub open spec fn room_changes(update: UpdateRoom) -> Seq<(Seq<char>, ValueModel)> {
    number_change("RoomLevelID"@, update.RoomLevelID) + number_change(
        "PhotoSetID"@,
        update.PhotoSetID,
    )
}

/// Decides a change of a room: only who owns the hotel or works in it may
/// change its rooms. The statement that makes the changes comes back, or
/// nothing where the request asks for no change.
pub fn update_room(hotel_id: i32, room_number: i32, user: &Authorized, update: &UpdateRoom) -> (r:
    ApiResult<Option<Statement>>)
    ensures
        !serves(user.roles@, hotel_id) ==> fails(
            r,
            ErrorCode::NotAuthorizedError,
            "Not owner or employee of hotel "@ + decimal(hotel_id as int),
        ),
        serves(user.roles@, hotel_id) ==> r is Ok && (if room_changes(*update).len() == 0 {
            r->Ok_0 is None
        } else {
            r->Ok_0 is Some && r->Ok_0->0@ == update_of::<Room>(
                "HotelID = "@ + decimal(hotel_id as int) + " and RoomNumber = "@ + decimal(
                    room_number as int,
                ),
                room_changes(*update),
            )
        }),
{
    match authority(&user.roles, hotel_id) {
        Ok(_) => {},
        Err(e) => {
            return Err(e);
        },
    }
    let mut changes: Vec<(String, Value)> = Vec::new();
    proof {
        assert(cells_of(changes@) =~= Seq::<(Seq<char>, ValueModel)>::empty());
    }
    note_number(&mut changes, "RoomLevelID", update.RoomLevelID);
    note_number(&mut changes, "PhotoSetID", update.PhotoSetID);
    proof {
        reveal_strlit("RoomLevelID");
        reveal_strlit("PhotoSetID");
        assert(cells_of(changes@) =~= room_changes(*update));
    }
    let mut filter = numbered("HotelID = ", hotel_id);
    filter.append(" and RoomNumber = ");
    let number = decimal_string(room_number as i64);
    filter.append(number.as_str());
    Ok(update_statement::<Room>(filter.as_str(), &changes))
}

/// The statement that lists the reviews of the bookings of a hotel.
pub fn get_reviews(hotel_id: i32, cnt: Option<i32>, offset: Option<i32>) -> (s: Statement)
    ensures
        s@ == (
            (SelectQuery {
                columns: Some("Review.*"@),
                from_tables: Some("Review, Booking"@),
                filter: Some("Booking.HotelID = $1 and Review.BookingID = Booking.ID"@),
                limit: Some(number_or(cnt, i32::MAX)),
                offset: Some(number_or(offset, 0)),
                ..SelectQuery::fresh(SelectQuery::default_template())
            }).direct(),
            seq![ValueModel::Int(hotel_id)],
        ),
{
    let b = SelectQueryBuilder::default().columns("Review.*").from_tables(
        "Review, Booking",
    ).filter("Booking.HotelID = $1 and Review.BookingID = Booking.ID").limit(
        or_number(cnt, i32::MAX),
    ).offset(or_number(offset, 0));
    proof {
        reveal_strlit("Review.*");
        reveal_strlit("Review, Booking");
        reveal_strlit("Booking.HotelID = $1 and Review.BookingID = Booking.ID");
    }
    with_identity(build_join(b), hotel_id)
}

/// The statement that lists the persons who work in a hotel.
pub fn get_employees(hotel_id: i32, cnt: Option<i32>, offset: Option<i32>) -> (s: Statement)
    ensures
        s@ == (
            (SelectQuery {
                columns: Some("Person.*"@),
                from_tables: Some("EmployedIn, Person"@),
                filter: Some("EmployedIn.HotelID = $1 and EmployedIn.PersonID = Person.ID"@),
                limit: Some(number_or(cnt, i32::MAX)),
                offset: Some(number_or(offset, 0)),
                ..SelectQuery::fresh(SelectQuery::default_template())
            }).direct(),
            seq![ValueModel::Int(hotel_id)],
        ),
{
    let b = SelectQueryBuilder::default().columns("Person.*").from_tables(
        "EmployedIn, Person",
    ).filter("EmployedIn.HotelID = $1 and EmployedIn.PersonID = Person.ID").limit(
        or_number(cnt, i32::MAX),
    ).offset(or_number(offset, 0));
    proof {
        reveal_strlit("Person.*");
        reveal_strlit("EmployedIn, Person");
        reveal_strlit("EmployedIn.HotelID = $1 and EmployedIn.PersonID = Person.ID");
    }
    with_identity(build_join(b), hotel_id)
}

/// Only who owns a hotel may dismiss its employees.
pub fn may_fire(hotel_id: i32, user: &Authorized) -> (r: ApiResult<()>)
    ensures
        user.roles@.owner_of(hotel_id) ==> r is Ok,
        !user.roles@.owner_of(hotel_id) ==> fails(
            r,
            ErrorCode::NotAuthorizedError,
            "Not owner or employee of hotel "@ + decimal(hotel_id as int),
        ),
{
    if !user.roles.owns(hotel_id) {
        return Err(
            ApiFailure {
                code: ErrorCode::NotAuthorizedError,
                description: numbered("Not owner or employee of hotel ", hotel_id),
            },
        );
    }
    Ok(())
}

/// Decides the dismissal of an employee from the employee's roles. The
/// employee's number has to be among the numbers listed under the
/// employee's employments; else the person counts as not employed. The
/// statement that removes the employment comes back.
pub fn fire_employee(hotel_id: i32, emp_id: i32, emp_roles: &Roles) -> (r: ApiResult<Statement>)
    ensures
        !emp_roles@.works_in(emp_id) ==> fails(
            r,
            ErrorCode::NotFoundError,
            "Person "@ + decimal(emp_id as int) + " is not employed in "@ + decimal(
                hotel_id as int,
            ),
        ),
        emp_roles@.works_in(emp_id) ==> r is Ok && r->Ok_0@ == (
            (DeleteQuery {
                filter: Some("HotelID = $1, PersonID = $2"@),
                ..delete_seed::<EmployedIn>()
            }).direct(),
            seq![ValueModel::Int(hotel_id), ValueModel::Int(emp_id)],
        ),
{
    if !emp_roles.employed_in(emp_id) {
        let mut message = numbered("Person ", emp_id);
        message.append(" is not employed in ");
        let hotel = decimal_string(hotel_id as i64);
        message.append(hotel.as_str());
        return Err(ApiFailure { code: ErrorCode::NotFoundError, description: message });
    }
    let b = EmployedIn::delete_builder().filter("HotelID = $1, PersonID = $2");
    Ok(with_two_numbers(build_delete::<EmployedIn>(b), hotel_id, emp_id))
}

} // verus!
