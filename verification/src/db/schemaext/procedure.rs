//! Statements that call the stored procedures of the database. Each
//! returns one row with one cell: the identity of what it stored.

use crate::db::row::{opt_int_model, values_of, Row, Statement, Value, ValueModel};
use crate::db::row::{opt_int_value, Timestamp};
use crate::db::schema::Hotel;
use vstd::prelude::*;
use vstd::string::*;

verus! {

/// The statement that stores a booking and returns its identity.
pub fn insert_booking(
    ClientPersonID: i32,
    HotelID: i32,
    RoomNumber: i32,
    BookingTime: Timestamp,
    ArrivalTime: Timestamp,
    DepartureTime: Timestamp,
) -> (s: Statement)
    ensures
        s@ == (
            "SELECT insert_booking_and_return_id($1, $2, $3, $4, $5, $6);"@,
            seq![
                ValueModel::Int(ClientPersonID),
                ValueModel::Int(HotelID),
                ValueModel::Int(RoomNumber),
                ValueModel::Time(BookingTime),
                ValueModel::Time(ArrivalTime),
                ValueModel::Time(DepartureTime),
            ],
        ),
{
    let mut args: Vec<Value> = Vec::new();
    args.push(Value::Int(ClientPersonID));
    args.push(Value::Int(HotelID));
    args.push(Value::Int(RoomNumber));
    args.push(Value::Time(BookingTime));
    args.push(Value::Time(ArrivalTime));
    args.push(Value::Time(DepartureTime));
    proof {
        assert(values_of(args@) =~= seq![
            ValueModel::Int(ClientPersonID),
            ValueModel::Int(HotelID),
            ValueModel::Int(RoomNumber),
            ValueModel::Time(BookingTime),
            ValueModel::Time(ArrivalTime),
            ValueModel::Time(DepartureTime),
        ]);
    }
    Statement {
        sql: String::from_str("SELECT insert_booking_and_return_id($1, $2, $3, $4, $5, $6);"),
        args,
    }
}

/// The statement that stores a hotel and returns its identity.
pub fn insert_hotel(hotel: &Hotel) -> (s: Statement)
    ensures
        s@ == (
            "SELECT insert_hotel_and_return_id($1, $2, $3, $4, $5, $6, $7, $8);"@,
            seq![
                ValueModel::Int(hotel.OwnerPersonID),
                ValueModel::Int(hotel.RuleSetID),
                ValueModel::Int(hotel.CityID),
                opt_int_model(hotel.PhotoSetID),
                ValueModel::Text(hotel.Name@),
                ValueModel::Text(hotel.Description@),
                opt_int_model(hotel.Rating),
                opt_int_model(hotel.Stars),
            ],
        ),
{
    let mut args: Vec<Value> = Vec::new();
    args.push(Value::Int(hotel.OwnerPersonID));
    args.push(Value::Int(hotel.RuleSetID));
    args.push(Value::Int(hotel.CityID));
    args.push(opt_int_value(hotel.PhotoSetID));
    args.push(Value::Text(hotel.Name.clone()));
    args.push(Value::Text(hotel.Description.clone()));
    args.push(opt_int_value(hotel.Rating));
    args.push(opt_int_value(hotel.Stars));
    proof {
        assert(values_of(args@) =~= seq![
            ValueModel::Int(hotel.OwnerPersonID),
            ValueModel::Int(hotel.RuleSetID),
            ValueModel::Int(hotel.CityID),
            opt_int_model(hotel.PhotoSetID),
            ValueModel::Text(hotel.Name@),
            ValueModel::Text(hotel.Description@),
            opt_int_model(hotel.Rating),
            opt_int_model(hotel.Stars),
        ]);
    }
    Statement {
        sql: String::from_str(
            "SELECT insert_hotel_and_return_id($1, $2, $3, $4, $5, $6, $7, $8);",
        ),
        args,
    }
}

/// The number in the first cell of the first row.
pub open spec fn first_number(rows: Seq<Row>) -> Option<i32> {
    if rows.len() > 0 && rows[0]@.len() > 0 && rows[0]@[0].1 is Int {
        Some(rows[0]@[0].1->Int_0)
    } else {
        None
    }
}

/// The identity that a stored procedure returned: the number in the first
/// cell of the first row. There is none where the procedure returned no
/// row, or something else than a number.
pub fn returned_id(rows: &Vec<Row>) -> (r: Option<i32>)
    ensures
        r == first_number(rows@),
{
    if rows.len() == 0 {
        return None;
    }
    match rows[0].at(0) {
        Some(Value::Int(id)) => Some(*id),
        _ => None,
    }
}

} // verus!
