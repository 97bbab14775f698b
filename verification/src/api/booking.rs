//! Bookings: who may see one, and how one is made.

use super::authorization::fails;
use super::{found_or, number_or, numbered, or_number, with_identity};
use crate::db::builder::select::{SelectQuery, SelectQueryBuilder};
use crate::db::row::{Statement, Timestamp, ValueModel};
use crate::db::schema::{Booking, EmployedIn, MaintainedBy};
use crate::db::schemaext::procedure::insert_booking;
use crate::db::{
    build_join, build_select, insert_seed, insert_values, select_seed, Insertable, QueryBuilder,
    Queryable,
};
use crate::proto::error::{ApiFailure, ApiResult, ErrorCode};
use crate::proto::schema::NewBooking;
use crate::text::decimal;
use vstd::prelude::*;
use vstd::string::*;

verus! {

/// The statement that reads the booking `booking_id`.
pub fn get_booking_by_id(booking_id: i32) -> (s: Statement)
    ensures
        s@ == (
            (SelectQuery { filter: Some("ID = $1"@), ..select_seed::<Booking>() }).direct(),
            seq![ValueModel::Int(booking_id)],
        ),
{
    let b = Booking::select_builder().filter("ID = $1");
    proof {
        reveal_strlit("*");
        reveal_strlit("ID = $1");
    }
    with_identity(build_select::<Booking>(b), booking_id)
}

/// The booking that the statement of [`get_booking_by_id`] found, or the
/// failure to find it.
pub fn booking_found(booking_id: i32, booking: Option<Booking>) -> (r: ApiResult<Booking>)
    ensures
        match booking {
            Some(b) => r == Ok::<Booking, ApiFailure>(b),
            None => fails(
                r,
                ErrorCode::NotFoundError,
                "No booking with id "@ + decimal(booking_id as int),
            ),
        },
{
    found_or(booking, numbered("No booking with id ", booking_id))
}

/// The statement that reads where a person works.
pub fn employment_of(user_id: i32) -> (s: Statement)
    ensures
        s@ == (
            (SelectQuery {
                filter: Some("PersonID = $1"@),
                ..select_seed::<EmployedIn>()
            }).direct(),
            seq![ValueModel::Int(user_id)],
        ),
{
    let b = EmployedIn::select_builder().filter("PersonID = $1");
    proof {
        reveal_strlit("*");
        reveal_strlit("PersonID = $1");
    }
    with_identity(build_select::<EmployedIn>(b), user_id)
}

/// The person may see the booking: it is the person's own, or the person
/// works in the hotel of the booking.
pub open spec fn may_see(user_id: i32, booking: Booking, employment: Option<EmployedIn>) -> bool {
    user_id == booking.ClientPersonID || (employment is Some && employment->0.HotelID
        == booking.HotelID)
}

/// Decides whether the caller may see a booking: the client of the
/// booking may, and who works in its hotel; nobody else.
pub fn booking_access(user_id: i32, booking: &Booking, employment: &Option<EmployedIn>) -> (r:
    ApiResult<()>)
    ensures
        may_see(user_id, *booking, *employment) ==> r is Ok,
        !may_see(user_id, *booking, *employment) ==> fails(
            r,
            ErrorCode::NotAuthorizedError,
            "Access denied, nor booking's owner nor hotel employee"@,
        ),
{
    if user_id == booking.ClientPersonID {
        return Ok(());
    }
    match employment {
        Some(e) => {
            if e.HotelID == booking.HotelID {
                return Ok(());
            }
        },
        None => {},
    }
    Err(
        ApiFailure::from_str(
            ErrorCode::NotAuthorizedError,
            "Access denied, nor booking's owner nor hotel employee",
        ),
    )
}

/// The client of a new booking: the one that the request names, else the
/// caller.
pub open spec fn client_of(user_id: i32, new_booking: NewBooking) -> i32 {
    number_or(new_booking.ClientPersonID, user_id)
}

/// The receptionist who makes the booking: the caller's employment where
/// the booking is for somebody else; nobody where it is the caller's own.
pub open spec fn acting(
    user_id: i32,
    new_booking: NewBooking,
    receptionist: Option<EmployedIn>,
) -> Option<EmployedIn> {
    if client_of(user_id, new_booking) == user_id {
        None
    } else {
        receptionist
    }
}

/// The statement that reads the caller's employment as a receptionist. It
/// is needed only where the booking is for somebody else.
pub fn receptionist_of(user_id: i32, new_booking: &NewBooking) -> (r: Option<Statement>)
    ensures
        client_of(user_id, *new_booking) == user_id ==> r is None,
        client_of(user_id, *new_booking) != user_id ==> r is Some && r->0@ == (
            (SelectQuery {
                columns: Some("EmployedIn.PersonID, EmployedInHotelID"@),
                from_tables: Some("EmployedIn, Receptionist"@),
                filter: Some(
                    "EmployedIn.PersonID = $1 and Receptionist.PersonID = EmployedIn.PersonID"@,
                ),
                ..SelectQuery::fresh(SelectQuery::default_template())
            }).direct(),
            seq![ValueModel::Int(user_id)],
        ),
{
    if or_number(new_booking.ClientPersonID, user_id) == user_id {
        return None;
    }
    let b = SelectQueryBuilder::default().columns(
        "EmployedIn.PersonID, EmployedInHotelID",
    ).from_tables("EmployedIn, Receptionist").filter(
        "EmployedIn.PersonID = $1 and Receptionist.PersonID = EmployedIn.PersonID",
    );
    proof {
        reveal_strlit("EmployedIn.PersonID, EmployedInHotelID");
        reveal_strlit("EmployedIn, Receptionist");
        reveal_strlit("EmployedIn.PersonID = $1 and Receptionist.PersonID = EmployedIn.PersonID");
    }
    Some(with_identity(build_join(b), user_id))
}

/// The hotel of a new booking: the one that the request names, else the
/// hotel of the receptionist who makes the booking.
pub open spec fn hotel_of(new_booking: NewBooking, acting: Option<EmployedIn>) -> Option<i32> {
    match new_booking.HotelID {
        Some(h) => Some(h),
        None => match acting {
            Some(r) => Some(r.HotelID),
            None => None,
        },
    }
}

/// Decides a new booking. Who books for somebody else has to be a
/// receptionist: `receptionist` is the employment that the statement of
/// [`receptionist_of`] found. The hotel has to be named by the request or
/// to follow from the receptionist. The statement that stores the booking,
/// made at the time `now`, comes back.
pub fn put_booking(
    user_id: i32,
    new_booking: &NewBooking,
    receptionist: &Option<EmployedIn>,
    now: Timestamp,
) -> (r: ApiResult<Statement>)
    ensures
        client_of(user_id, *new_booking) != user_id && receptionist is None ==> fails(
            r,
            ErrorCode::NotAuthorizedError,
            "Only receptionist can make bookings on behalf of client"@,
        ),
        !(client_of(user_id, *new_booking) != user_id && receptionist is None) ==> match hotel_of(
            *new_booking,
            acting(user_id, *new_booking, *receptionist),
        ) {
            None => fails(r, ErrorCode::NotAuthorizedError, "Couldn't infer HotelID"@),
            Some(hotel_id) => r is Ok && r->Ok_0@ == (
                "SELECT insert_booking_and_return_id($1, $2, $3, $4, $5, $6);"@,
                seq![
                    ValueModel::Int(client_of(user_id, *new_booking)),
                    ValueModel::Int(hotel_id),
                    ValueModel::Int(new_booking.RoomNumber),
                    ValueModel::Time(now),
                    ValueModel::Time(new_booking.ArrivalTime),
                    ValueModel::Time(new_booking.DepartureTime),
                ],
            ),
        },
{
    let client_id = or_number(new_booking.ClientPersonID, user_id);
    let own = client_id == user_id;
    if !own && receptionist.is_none() {
        return Err(
            ApiFailure::from_str(
                ErrorCode::NotAuthorizedError,
                "Only receptionist can make bookings on behalf of client",
            ),
        );
    }
    let hotel_id = match new_booking.HotelID {
        Some(h) => h,
        None => {
            match receptionist {
                Some(r) if !own => r.HotelID,
                _ => {
                    return Err(
                        ApiFailure::from_str(
                            ErrorCode::NotAuthorizedError,
                            "Couldn't infer HotelID",
                        ),
                    );
                },
            }
        },
    };
    Ok(
        insert_booking(
            client_id,
            hotel_id,
            new_booking.RoomNumber,
            now,
            new_booking.ArrivalTime,
            new_booking.DepartureTime,
        ),
    )
}

/// The note that a receptionist made a booking.
pub open spec fn maintenance(
    booking_id: i32,
    receptionist: EmployedIn,
    now: Timestamp,
) -> MaintainedBy {
    MaintainedBy {
        BookingID: booking_id,
        ReceptionistPersonID: receptionist.PersonID,
        MaintainedAt: now,
    }
}

/// The statement that notes who made the booking `booking_id` at the time
/// `now`, where a receptionist made it for a client; nothing where the
/// booking is the caller's own.
pub fn maintained_by(
    user_id: i32,
    new_booking: &NewBooking,
    receptionist: &Option<EmployedIn>,
    booking_id: i32,
    now: Timestamp,
) -> (r: Option<Statement>)
    ensures
        match acting(user_id, *new_booking, *receptionist) {
            None => r is None,
            Some(e) => r is Some && r->0@ == (
                insert_seed::<MaintainedBy>().direct(),
                insert_values(&maintenance(booking_id, e, now)),
            ),
        },
{
    if or_number(new_booking.ClientPersonID, user_id) == user_id {
        return None;
    }
    match receptionist {
        Some(e) => {
            let note = MaintainedBy {
                BookingID: booking_id,
                ReceptionistPersonID: e.PersonID,
                MaintainedAt: now,
            };
            Some(Statement { sql: MaintainedBy::insert_query(), args: note.insert_args() })
        },
        None => None,
    }
}

} // verus!
