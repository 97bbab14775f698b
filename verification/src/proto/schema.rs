//! The data of requests and answers.

use crate::db::row::{values_of, Statement, Timestamp, Value, ValueModel};
use crate::db::schema::{Person, Room};
use vstd::prelude::*;
use vstd::string::*;

verus! {

/// The body of a request to sign in.
#[derive(Debug, Clone, PartialEq, Eq)]
pub struct SigninData {
    pub Login: String,
    pub PassHash: String,
}

/// The body of a request to sign up.
#[derive(Debug, Clone, PartialEq, Eq)]
pub struct SignupData {
    pub Login: String,
    pub Name: String,
    pub Email: String,
    pub PassHash: String,
}

/// What a person may do: the roles, the hotels owned if the person is an
/// owner, and the hotels worked in if the person is employed.
#[derive(Debug, Clone, PartialEq, Eq)]
pub struct Roles {
    pub ID: i32,
    pub Owner: bool,
    pub Owns: Option<Vec<i32>>,
    pub Manager: bool,
    pub Cleaner: bool,
    pub Receptionist: bool,
    pub EmployedIn: Option<Vec<i32>>,
}

/// What a [`Roles`] value holds.
pub struct RoleSet {
    pub id: i32,
    pub owner: bool,
    pub owns: Option<Seq<i32>>,
    pub manager: bool,
    pub cleaner: bool,
    pub receptionist: bool,
    pub employed_in: Option<Seq<i32>>,
}

impl RoleSet {
    /// The person owns the hotel.
    pub open spec fn owner_of(self, hotel_id: i32) -> bool {
        self.owns is Some && self.owns->0.contains(hotel_id)
    }

    /// The hotel is among those that the person works in.
    pub open spec fn works_in(self, hotel_id: i32) -> bool {
        self.employed_in is Some && self.employed_in->0.contains(hotel_id)
    }
}

/// The numbers of an optional vector.
pub open spec fn opt_numbers(o: Option<Vec<i32>>) -> Option<Seq<i32>> {
    match o {
        Some(v) => Some(v@),
        None => None,
    }
}

impl View for Roles {
    type V = RoleSet;

    open spec fn view(&self) -> RoleSet {
        RoleSet {
            id: self.ID,
            owner: self.Owner,
            owns: opt_numbers(self.Owns),
            manager: self.Manager,
            cleaner: self.Cleaner,
            receptionist: self.Receptionist,
            employed_in: opt_numbers(self.EmployedIn),
        }
    }
}

/// A copy of the numbers.
pub fn copy_numbers(v: &Vec<i32>) -> (r: Vec<i32>)
    ensures
        r@ == v@,
{
    let mut r: Vec<i32> = Vec::new();
    let mut i: usize = 0;
    while i < v.len()
        invariant
            i <= v.len(),
            r@ == v@.take(i as int),
        decreases v.len() - i,
    {
        r.push(v[i]);
        i += 1;
        proof {
            assert(r@ =~= v@.take(i as int));
        }
    }
    proof {
        assert(v@.take(v.len() as int) =~= v@);
    }
    r
}

/// A copy of the optional numbers.
pub fn copy_opt_numbers(o: &Option<Vec<i32>>) -> (r: Option<Vec<i32>>)
    ensures
        opt_numbers(r) == opt_numbers(*o),
{
    match o {
        Some(v) => Some(copy_numbers(v)),
        None => None,
    }
}

/// Whether `id` is one of the numbers.
pub fn holds(numbers: &Option<Vec<i32>>, id: i32) -> (r: bool)
    ensures
        r == (numbers is Some && numbers->0@.contains(id)),
{
    match numbers {
        Some(v) => {
            let mut i: usize = 0;
            while i < v.len()
                invariant
                    i <= v.len(),
                    numbers == Some(*v),
                    forall|k: int| 0 <= k < i ==> v@[k] != id,
                decreases v.len() - i,
            {
                if v[i] == id {
                    assert(v@[i as int] == id);
                    return true;
                }
                i += 1;
            }
            false
        },
        None => false,
    }
}

impl Roles {
    /// A copy of the roles.
    pub fn copy(&self) -> (r: Roles)
        ensures
            r@ == self@,
    {
        Roles {
            ID: self.ID,
            Owner: self.Owner,
            Owns: copy_opt_numbers(&self.Owns),
            Manager: self.Manager,
            Cleaner: self.Cleaner,
            Receptionist: self.Receptionist,
            EmployedIn: copy_opt_numbers(&self.EmployedIn),
        }
    }

    /// Whether the person owns the hotel.
    pub fn owns(&self, hotel_id: i32) -> (r: bool)
        ensures
            r == self@.owner_of(hotel_id),
    {
        holds(&self.Owns, hotel_id)
    }

    /// Whether the person works in the hotel.
    pub fn employed_in(&self, hotel_id: i32) -> (r: bool)
        ensures
            r == self@.works_in(hotel_id),
    {
        holds(&self.EmployedIn, hotel_id)
    }
}

/// The changes that a person asks for on the own account. A new password
/// needs the old one.
#[derive(Debug, Clone, PartialEq, Eq)]
pub struct UpdateAccountInfoData {
    pub NewName: Option<String>,
    pub NewEmail: Option<String>,
    pub OldPassHash: Option<String>,
    pub NewPassHash: Option<String>,
}

/// A city to add.
#[derive(Debug, Clone, PartialEq, Eq)]
pub struct NewCity {
    pub Name: String,
}

/// A booking to make: for the caller, or by a receptionist for a client.
#[derive(Debug, Clone, PartialEq, Eq)]
pub struct NewBooking {
    pub ClientPersonID: Option<i32>,
    pub HotelID: Option<i32>,
    pub RoomNumber: i32,
    pub ArrivalTime: Timestamp,
    pub DepartureTime: Timestamp,
}

/// A hotel to add.
#[derive(Debug, Clone, PartialEq, Eq)]
pub struct NewHotel {
    pub CityID: i32,
    pub Name: String,
    pub Description: String,
    pub Stars: Option<i32>,
}

/// The changes asked for on a hotel.
#[derive(Debug, Clone, PartialEq, Eq)]
pub struct UpdateHotel {
    pub RuleSetID: Option<i32>,
    pub Name: Option<String>,
    pub Description: Option<String>,
    pub PhotoSetID: Option<i32>,
    pub Stars: Option<i32>,
}

/// A room to add to a hotel.
#[derive(Debug, Clone, PartialEq, Eq)]
pub struct NewRoom {
    pub RoomNumber: i32,
    pub RoomLevelID: i32,
    pub PhotoSetID: Option<i32>,
}

/// The changes asked for on a room.
#[derive(Debug, Clone, PartialEq, Eq)]
pub struct UpdateRoom {
    pub RoomLevelID: Option<i32>,
    pub PhotoSetID: Option<i32>,
}

/// A person who works in a hotel, with the roles.
#[derive(Debug, Clone, PartialEq, Eq)]
pub struct Employee {
    pub Person: Person,
    pub Roles: Roles,
}

/// A rule set to add.
#[derive(Debug, Clone, PartialEq, Eq)]
pub struct NewRuleSet {
    pub Name: String,
    pub Body: String,
}

/// The changes asked for on a rule set.
#[derive(Debug, Clone, PartialEq, Eq)]
pub struct UpdateRuleSet {
    pub Name: Option<String>,
    pub Body: Option<String>,
}

/// The two ends of a range.
#[derive(Debug, Clone, PartialEq, Eq)]
pub struct Range<T: Ord> {
    pub from: T,
    pub to: T,
}

/// What a search for rooms asks for.
#[derive(Debug, Clone, PartialEq, Eq)]
pub struct SearchRequest {
    pub CityID: i32,
    pub DateTime: Option<Range<Timestamp>>,
    pub Rating: Option<Range<i32>>,
    pub Stars: Option<Range<i32>>,
    pub Price: Option<Range<i32>>,
    pub HotelID: Option<i32>,
}

/// A room with its price for a client.
#[derive(Debug, Clone, PartialEq, Eq)]
pub struct PricedRoom {
    pub Room: Room,
    pub Price: i32,
}

impl PricedRoom {
    /// The statement that asks the database for the price of a room for a
    /// client.
    pub fn price_statement(room: &Room, client_id: i32) -> (s: Statement)
        ensures
            s@ == (
                "SELECT room_price($1, $2, $3)"@,
                seq![
                    ValueModel::Int(room.RoomLevel),
                    ValueModel::Int(room.HotelID),
                    ValueModel::Int(client_id),
                ],
            ),
    {
        let mut args: Vec<Value> = Vec::new();
        args.push(Value::Int(room.RoomLevel));
        args.push(Value::Int(room.HotelID));
        args.push(Value::Int(client_id));
        proof {
            assert(values_of(args@) =~= seq![
                ValueModel::Int(room.RoomLevel),
                ValueModel::Int(room.HotelID),
                ValueModel::Int(client_id),
            ]);
        }
        Statement { sql: String::from_str("SELECT room_price($1, $2, $3)"), args }
    }

    /// The room with the price that the database gave for it.
    pub fn from_room(room: Room, price: i32) -> (r: PricedRoom)
        ensures
            r.Room == room,
            r.Price == price,
    {
        PricedRoom { Room: room, Price: price }
    }
}

} // verus!
