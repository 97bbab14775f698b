//! The search for rooms.

use super::{numbered, without_arguments};
use crate::db::builder::select::{lemma_select_builds, SelectQuery, SelectQueryBuilder};
use crate::db::builder::{shown, QueryBuilder};
use crate::db::row::{naive_text, Statement, Timestamp, ValueModel};
use crate::proto::schema::{Range, SearchRequest};
use crate::text::{decimal, decimal_string, opt_text};
use vstd::prelude::*;
use vstd::string::*;

verus! {

/// The condition on the place: the hotel that the request names, else its
/// city; and the rooms are those of the hotel.
pub open spec fn place_condition(req: SearchRequest) -> Seq<char> {
    match req.HotelID {
        Some(hotel_id) => "Hotel.ID = "@ + decimal(hotel_id as int)
            + " and Room.HotelID = Hotel.ID"@,
        None => "Hotel.CityID = "@ + decimal(req.CityID as int) + " and Room.HotelID = Hotel.ID"@,
    }
}

/// The condition on the rating of the hotel.
pub open spec fn rating_condition(rating: Option<Range<i32>>) -> Option<Seq<char>> {
    match rating {
        Some(r) => Some(
            " and (Hotel.Rating >= "@ + decimal(r.from as int) + " and Hotel.Rating <= "@ + decimal(
                r.to as int,
            ) + ") or Hote.Rating = null"@,
        ),
        None => None,
    }
}

/// The condition on the stars of the hotel.
pub open spec fn stars_condition(stars: Option<Range<i32>>) -> Option<Seq<char>> {
    match stars {
        Some(s) => Some(
            " and (Hotel.Stars >= "@ + decimal(s.from as int) + " and Hotel.Stars <= "@ + decimal(
                s.to as int,
            ) + ")"@,
        ),
        None => None,
    }
}

/// The condition on the price of the room for the client.
pub open spec fn price_condition(client_id: i32, price: Option<Range<i32>>) -> Option<Seq<char>> {
    match price {
        Some(p) => Some(
            " and (SELECT room_price(Room.RoomLevel, Room.HotelID, "@ + decimal(client_id as int)
                + ")) >= "@ + decimal(p.from as int)
                + " and (SELECT room_price(Room.RoomLevel, Room.HotelID, "@ + decimal(
                client_id as int,
            ) + ")) <= "@ + decimal(p.to as int),
        ),
        None => None,
    }
}

/// The condition that the room is free between two times, given as texts.
pub open spec fn date_condition(from: Seq<char>, to: Seq<char>) -> Seq<char> {
    " and NOT EXISTS( SELECT * FROM Booking WHERE Booking.HotelID = Room.HotelID and Booking.RoomNumber = Room.RoomNumber and (Booking.ArrivalTime > "@
        + from + " or Booking.DepartureTime < "@ + to + "); )"@
}

/// The condition on the time, if the request has one and both of its ends
/// can be written.
pub open spec fn time_condition(datetime: Option<Range<Timestamp>>) -> Option<Seq<char>> {
    match datetime {
        Some(dt) => match (
            naive_text(dt.from.seconds, dt.from.nanos),
            naive_text(dt.to.seconds, dt.to.nanos),
        ) {
            (Some(from), Some(to)) => Some(date_condition(from, to)),
            _ => None,
        },
        None => None,
    }
}

/// The condition on the rating of the hotel, where the request has one.
pub fn rating_range_to_clause(rating: &Option<Range<i32>>) -> (r: Option<String>)
    ensures
        opt_text(r) == rating_condition(*rating),
{
    match rating {
        Some(range) => {
            let mut s = numbered(" and (Hotel.Rating >= ", range.from);
            s.append(" and Hotel.Rating <= ");
            let to = decimal_string(range.to as i64);
            s.append(to.as_str());
            s.append(") or Hote.Rating = null");
            Some(s)
        },
        None => None,
    }
}

/// The condition on the stars of the hotel, where the request has one.
pub fn stars_range_to_clause(stars: &Option<Range<i32>>) -> (r: Option<String>)
    ensures
        opt_text(r) == stars_condition(*stars),
{
    match stars {
        Some(range) => {
            let mut s = numbered(" and (Hotel.Stars >= ", range.from);
            s.append(" and Hotel.Stars <= ");
            let to = decimal_string(range.to as i64);
            s.append(to.as_str());
            s.append(")");
            Some(s)
        },
        None => None,
    }
}

/// The condition on the price of the room for the client, where the
/// request has one.
pub fn price_range_to_clause(client_id: i32, price: &Option<Range<i32>>) -> (r: Option<String>)
    ensures
        opt_text(r) == price_condition(client_id, *price),
{
    match price {
        Some(range) => {
            let client = decimal_string(client_id as i64);
            let mut s = String::from_str(" and (SELECT room_price(Room.RoomLevel, Room.HotelID, ");
            s.append(client.as_str());
            s.append(")) >= ");
            let from = decimal_string(range.from as i64);
            s.append(from.as_str());
            s.append(" and (SELECT room_price(Room.RoomLevel, Room.HotelID, ");
            s.append(client.as_str());
            s.append(")) <= ");
            let to = decimal_string(range.to as i64);
            s.append(to.as_str());
            Some(s)
        },
        None => None,
    }
}

/// The condition that the room is free between two times, given as texts.
pub fn date_clause(from: &str, to: &str) -> (r: String)
    ensures
        r@ == date_condition(from@, to@),
{
    let mut s = String::from_str(
        " and NOT EXISTS( SELECT * FROM Booking WHERE Booking.HotelID = Room.HotelID and Booking.RoomNumber = Room.RoomNumber and (Booking.ArrivalTime > ",
    );
    s.append(from);
    s.append(" or Booking.DepartureTime < ");
    s.append(to);
    s.append("); )");
    s
}

/// The condition on the time, where the request has one and both of its
/// ends can be written as a date and time.
pub fn date_range_to_clause(datetime: &Option<Range<Timestamp>>) -> (r: Option<String>)
    ensures
        opt_text(r) == time_condition(*datetime),
{
    match datetime {
        Some(range) => {
            match (range.from.text(), range.to.text()) {
                (Some(from), Some(to)) => Some(date_clause(from.as_str(), to.as_str())),
                _ => None,
            }
        },
        None => None,
    }
}

/// The whole condition of a search: the place, then the conditions on
/// rating, stars, price and time that the request has.
pub open spec fn search_condition(req: SearchRequest, user_id: i32) -> Seq<char> {
    place_condition(req) + shown(rating_condition(req.Rating)) + shown(
        stars_condition(req.Stars),
    ) + shown(price_condition(user_id, req.Price)) + shown(time_condition(req.DateTime))
}

/// What the search selects: the rooms of the hotels that meet the
/// condition, one for each level of rooms of a hotel.
pub open spec fn search_query(condition: Seq<char>) -> SelectQuery {
    SelectQuery {
        columns: Some("Room.*"@),
        from_tables: Some("Room, Hotel"@),
        filter: Some(condition),
        group_by: Some("Room.HotelID, Room.RoomLevel"@),
        ..SelectQuery::fresh(SelectQuery::default_template())
    }
}

/// The request asks for a time that cannot be written as a date and time.
pub open spec fn unwritable(req: SearchRequest) -> bool {
    req.DateTime is Some && time_condition(req.DateTime) is None
}

/// The statement of a search, without arguments. There is none where the
/// request asks for a time that cannot be written as a date and time.
pub fn search(req: &SearchRequest, user_id: i32) -> (r: Option<Statement>)
    ensures
        unwritable(*req) ==> r is None,
        !unwritable(*req) ==> r is Some && r->0@.1 == Seq::<ValueModel>::empty() && search_query(
            search_condition(*req, user_id),
        ).sql() == Ok::<Seq<char>, Seq<char>>(r->0@.0),
{
    let date = date_range_to_clause(&req.DateTime);
    if req.DateTime.is_some() && date.is_none() {
        return None;
    }
    let mut condition = match req.HotelID {
        Some(hotel_id) => numbered("Hotel.ID = ", hotel_id),
        None => numbered("Hotel.CityID = ", req.CityID),
    };
    condition.append(" and Room.HotelID = Hotel.ID");
    append_clause(&mut condition, &rating_range_to_clause(&req.Rating));
    append_clause(&mut condition, &stars_range_to_clause(&req.Stars));
    append_clause(&mut condition, &price_range_to_clause(user_id, &req.Price));
    append_clause(&mut condition, &date);
    proof {
        assert(condition@ =~= search_condition(*req, user_id));
    }
    let b = SelectQueryBuilder::default().columns("Room.*").from_tables("Room, Hotel").filter(
        condition.as_str(),
    ).group_by("Room.HotelID, Room.RoomLevel");
    proof {
        lemma_select_builds(b@);
    }
    Some(without_arguments(b.build()))
}

/// Appends the clause, if there is one.
fn append_clause(condition: &mut String, clause: &Option<String>)
    ensures
        final(condition)@ == old(condition)@ + shown(opt_text(*clause)),
{
    match clause {
        Some(c) => {
            condition.append(c.as_str());
        },
        None => {
            proof {
                assert(condition@ + Seq::<char>::empty() =~= condition@);
            }
        },
    }
}

} // verus!
