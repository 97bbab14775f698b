use hotel_service::api::authorization::{
    Authorized, Authorizer, RoleAnswer, RoleInquiry, RoleQuestion, RoleStep, RolesMap, TokenMap,
};
use hotel_service::api::booking;
use hotel_service::api::hotel;
use hotel_service::api::manager;
use hotel_service::api::ruleset;
use hotel_service::api::search;
use hotel_service::db::row::{Statement, Timestamp, Value};
use hotel_service::db::schema::{Booking, EmployedIn, Hotel, Person, Room, RuleSet};
use hotel_service::error;
use hotel_service::populate;
use hotel_service::proto::error::{ApiError, ApiFailure, ErrorCode};
use hotel_service::proto::schema::{
    NewBooking, NewRoom, NewRuleSet, PricedRoom, Range, Roles, SearchRequest, SigninData,
    UpdateHotel, UpdateRoom, UpdateRuleSet,
};
use hotel_service::response::ApiResponse;

fn roles(id: i32) -> Roles {
    Roles {
        ID: id,
        Owner: false,
        Owns: None,
        Manager: false,
        Cleaner: false,
        Receptionist: false,
        EmployedIn: None,
    }
}

fn denied(description: &str) -> ApiFailure {
    ApiFailure { code: ErrorCode::NotAuthorizedError, description: description.to_string() }
}

fn missing(description: &str) -> ApiFailure {
    ApiFailure { code: ErrorCode::NotFoundError, description: description.to_string() }
}

fn at(seconds: i64) -> Timestamp {
    Timestamp { seconds, nanos: 0 }
}

fn answers(step: RoleStep, replies: Vec<RoleAnswer>) -> (Vec<RoleQuestion>, RoleStep) {
    let mut asked = Vec::new();
    let mut step = step;
    for reply in replies {
        match step {
            RoleStep::Ask(question, inquiry) => {
                asked.push(question);
                step = inquiry.answer(reply);
            },
            done => return (asked, done),
        }
    }
    (asked, step)
}

#[test]
fn the_questions_about_a_person_come_in_their_order() {
    let (asked, step) = answers(
        RoleInquiry::begin(4),
        vec![
            RoleAnswer::Exists(true),
            RoleAnswer::Exists(false),
            RoleAnswer::Exists(false),
            RoleAnswer::Exists(true),
            RoleAnswer::Hotels(vec![8]),
            RoleAnswer::Hotels(vec![2, 3]),
        ],
    );
    assert_eq!(
        asked,
        vec![
            RoleQuestion::IsOwner,
            RoleQuestion::IsManager,
            RoleQuestion::IsCleaner,
            RoleQuestion::IsReceptionist,
            RoleQuestion::OwnedHotels,
            RoleQuestion::EmployedIn,
        ]
    );
    assert_eq!(
        step,
        RoleStep::Done(Roles {
            ID: 4,
            Owner: true,
            Owns: Some(vec![8]),
            Manager: false,
            Cleaner: false,
            Receptionist: true,
            EmployedIn: Some(vec![2, 3]),
        })
    );
}

#[test]
fn a_person_without_roles_is_asked_about_no_hotels() {
    let (asked, step) = answers(
        RoleInquiry::begin(4),
        vec![
            RoleAnswer::Exists(false),
            RoleAnswer::Exists(false),
            RoleAnswer::Exists(false),
            RoleAnswer::Exists(false),
        ],
    );
    assert_eq!(asked.len(), 4);
    assert_eq!(step, RoleStep::Done(roles(4)));
}

#[test]
fn an_answer_of_the_other_kind_changes_nothing() {
    let first = RoleInquiry::begin(4);
    let inquiry = match first.clone() {
        RoleStep::Ask(RoleQuestion::IsOwner, inquiry) => inquiry,
        other => panic!("{:?}", other),
    };
    assert_eq!(inquiry.id(), 4);
    assert_eq!(inquiry.answer(RoleAnswer::Hotels(vec![1])), first);
}

#[test]
fn the_statements_of_the_questions() {
    let statement = RoleQuestion::IsOwner.statement(4);
    assert_eq!(statement.sql, "SELECT * FROM Owner WHERE PersonID = $1    ;");
    assert_eq!(statement.args, vec![Value::Int(4)]);
    assert_eq!(
        RoleQuestion::IsManager.statement(4).sql,
        "SELECT * FROM Manager WHERE PersonID = $1    ;"
    );
    assert_eq!(
        RoleQuestion::IsCleaner.statement(4).sql,
        "SELECT * FROM Cleaner WHERE PersonID = $1    ;"
    );
    assert_eq!(
        RoleQuestion::IsReceptionist.statement(4).sql,
        "SELECT * FROM Receptionist WHERE PersonID = $1    ;"
    );
    assert_eq!(
        RoleQuestion::OwnedHotels.statement(4).sql,
        "SELECT ID FROM Hotel WHERE OwnerPersonID = $1    ;"
    );
    assert_eq!(
        RoleQuestion::EmployedIn.statement(4).sql,
        "SELECT HotelID FROM EmployedIn WHERE PersonID = $1    ;"
    );
}

#[test]
fn roles_that_are_known_are_not_asked_for() {
    let mut known = RolesMap::new();
    assert_eq!(known.get(4), None);
    let mut step = Authorizer::get_roles(&known, 4);
    while let RoleStep::Ask(_, inquiry) = step {
        step = Authorizer::answer_roles(&mut known, inquiry, RoleAnswer::Exists(false));
    }
    assert_eq!(step, RoleStep::Done(roles(4)));
    assert_eq!(known.get(4), Some(roles(4)));
    assert_eq!(Authorizer::get_roles(&known, 4), RoleStep::Done(roles(4)));
    assert!(matches!(Authorizer::get_roles(&known, 5), RoleStep::Ask(RoleQuestion::IsOwner, _)));
}

#[test]
fn tokens_are_the_decimal_text_of_the_identity() {
    let mut tokens = TokenMap::new();
    let person =
        Person { ID: -12, Login: "l".into(), Name: "n".into(), Email: "e".into(), PassHash: "h".into() };
    assert_eq!(Authorizer::signin(&mut tokens, &vec![person]), Ok("-12".to_string()));
    assert_eq!(tokens.get("-12"), Some(-12));
    assert_eq!(tokens.get("12"), None);
    assert_eq!(tokens.get("-012"), None);
    tokens.put("spare".to_string(), 3);
    assert_eq!(Authorizer::authorize(&tokens, "spare"), Ok(3));
}

#[test]
fn the_statement_of_a_signin() {
    let data = SigninData { Login: "alice".into(), PassHash: "h1".into() };
    let statement = Authorizer::signin_statement(&data);
    assert_eq!(statement.sql, "SELECT * FROM Person WHERE Login = $1 and PassHash = $2    ;");
    assert_eq!(statement.args, vec![Value::Text("alice".into()), Value::Text("h1".into())]);
}

#[test]
fn who_may_see_a_booking() {
    let b = Booking {
        ID: 1,
        ClientPersonID: 10,
        HotelID: 20,
        RoomNumber: 3,
        BookingTime: at(0),
        ArrivalTime: at(1),
        DepartureTime: at(2),
        FullCost: 5,
        Paid: true,
    };
    let refused = Err(denied("Access denied, nor booking's owner nor hotel employee"));
    assert_eq!(booking::booking_access(10, &b, &None), Ok(()));
    assert_eq!(booking::booking_access(11, &b, &None), refused);
    assert_eq!(
        booking::booking_access(11, &b, &Some(EmployedIn { PersonID: 11, HotelID: 20 })),
        Ok(())
    );
    assert_eq!(
        booking::booking_access(11, &b, &Some(EmployedIn { PersonID: 11, HotelID: 21 })),
        refused
    );
    assert_eq!(booking::booking_found(1, Some(b.clone())), Ok(b));
    assert_eq!(booking::booking_found(-4, None), Err(missing("No booking with id -4")));
    assert_eq!(
        booking::get_booking_by_id(1).sql,
        "SELECT * FROM Booking WHERE ID = $1    ;"
    );
    assert_eq!(booking::employment_of(11).args, vec![Value::Int(11)]);
}

fn new_booking(client: Option<i32>, hotel: Option<i32>) -> NewBooking {
    NewBooking {
        ClientPersonID: client,
        HotelID: hotel,
        RoomNumber: 5,
        ArrivalTime: at(100),
        DepartureTime: at(200),
    }
}

#[test]
fn a_booking_of_ones_own() {
    let request = new_booking(None, Some(3));
    assert_eq!(booking::receptionist_of(7, &request), None);
    let statement = booking::put_booking(7, &request, &None, at(50)).unwrap();
    assert_eq!(statement.sql, "SELECT insert_booking_and_return_id($1, $2, $3, $4, $5, $6);");
    assert_eq!(
        statement.args,
        vec![
            Value::Int(7),
            Value::Int(3),
            Value::Int(5),
            Value::Time(at(50)),
            Value::Time(at(100)),
            Value::Time(at(200)),
        ]
    );
    assert_eq!(booking::maintained_by(7, &request, &None, 1, at(50)), None);
    // Naming oneself as the client changes nothing.
    let request = new_booking(Some(7), Some(3));
    assert_eq!(booking::receptionist_of(7, &request), None);
    let desk = Some(EmployedIn { PersonID: 7, HotelID: 9 });
    assert_eq!(booking::maintained_by(7, &request, &desk, 1, at(50)), None);
}

#[test]
fn a_booking_of_ones_own_needs_its_hotel() {
    let request = new_booking(None, None);
    assert_eq!(
        booking::put_booking(7, &request, &None, at(50)),
        Err(denied("Couldn't infer HotelID"))
    );
    // The caller's own desk does not stand in for the hotel.
    let desk = Some(EmployedIn { PersonID: 7, HotelID: 9 });
    assert_eq!(
        booking::put_booking(7, &request, &desk, at(50)),
        Err(denied("Couldn't infer HotelID"))
    );
}

#[test]
fn a_booking_for_a_client_takes_a_receptionist() {
    let request = new_booking(Some(8), None);
    let asked = booking::receptionist_of(7, &request).unwrap();
    assert_eq!(
        asked.sql,
        "SELECT EmployedIn.PersonID, EmployedInHotelID FROM EmployedIn, Receptionist WHERE EmployedIn.PersonID = $1 and Receptionist.PersonID = EmployedIn.PersonID    ;"
    );
    assert_eq!(asked.args, vec![Value::Int(7)]);
    assert_eq!(
        booking::put_booking(7, &request, &None, at(50)),
        Err(denied("Only receptionist can make bookings on behalf of client"))
    );
    let desk = Some(EmployedIn { PersonID: 7, HotelID: 9 });
    let statement = booking::put_booking(7, &request, &desk, at(50)).unwrap();
    assert_eq!(statement.args[0], Value::Int(8));
    assert_eq!(statement.args[1], Value::Int(9));
    let note = booking::maintained_by(7, &request, &desk, 33, at(50)).unwrap();
    assert_eq!(
        note.sql,
        "INSERT INTO MaintainedBy (BookingID,ReceptionistPersonID,MaintainedAt) VALUES ($1,$2,$3);"
    );
    assert_eq!(note.args, vec![Value::Int(33), Value::Int(7), Value::Time(at(50))]);
    // The hotel that the request names comes before the receptionist's.
    let request = new_booking(Some(8), Some(4));
    let statement = booking::put_booking(7, &request, &desk, at(50)).unwrap();
    assert_eq!(statement.args[1], Value::Int(4));
}

fn user(id: i32, owns: Option<Vec<i32>>, employed_in: Option<Vec<i32>>) -> Authorized {
    Authorized {
        id,
        roles: Roles { Owner: owns.is_some(), Owns: owns, EmployedIn: employed_in, ..roles(id) },
    }
}

#[test]
fn rooms_are_changed_by_those_who_serve_the_hotel() {
    let stranger = user(1, None, None);
    let owner = user(2, Some(vec![5]), None);
    let clerk = user(3, None, Some(vec![4, 5]));
    let room = NewRoom { RoomNumber: 101, RoomLevelID: 2, PhotoSetID: None };
    assert_eq!(
        hotel::put_room(5, &stranger, &room),
        Err(denied("Not owner or employee of hotel 5"))
    );
    assert_eq!(hotel::put_room(6, &owner, &room), Err(denied("Not owner or employee of hotel 6")));
    let statement = hotel::put_room(5, &clerk, &room).unwrap();
    assert_eq!(
        statement.sql,
        "INSERT INTO Room (HotelID,RoomNumber,RoomLevel,PhotoSetID) VALUES ($1,$2,$3,$4);"
    );
    assert_eq!(
        statement.args,
        vec![Value::Int(5), Value::Int(101), Value::Int(2), Value::Null]
    );
    assert_eq!(hotel::authority(&owner.roles, 5), Ok(()));

    let update = UpdateRoom { RoomLevelID: Some(3), PhotoSetID: Some(8) };
    let statement = hotel::update_room(5, 101, &owner, &update).unwrap().unwrap();
    assert_eq!(
        statement.sql,
        "UPDATE Room SET RoomLevelID=$1,PhotoSetID=$2 WHERE HotelID = 5 and RoomNumber = 101;"
    );
    assert_eq!(statement.args, vec![Value::Int(3), Value::Int(8)]);
    let update = UpdateRoom { RoomLevelID: None, PhotoSetID: None };
    assert_eq!(hotel::update_room(5, 101, &owner, &update), Ok(None));
    assert_eq!(
        hotel::update_room(5, 101, &stranger, &update),
        Err(denied("Not owner or employee of hotel 5"))
    );
}

#[test]
fn hotels_are_changed_by_owners_and_managers() {
    let update = UpdateHotel {
        RuleSetID: None,
        Name: Some("New".into()),
        Description: Some("Newer".into()),
        PhotoSetID: None,
        Stars: Some(4),
    };
    let clerk = user(3, None, Some(vec![5]));
    assert_eq!(
        hotel::update_hotel(5, &clerk, &update),
        Err(denied("Only owner and manager update hotel's info"))
    );
    let mut manager = user(3, None, Some(vec![5]));
    manager.roles.Manager = true;
    let statement = hotel::update_hotel(5, &manager, &update).unwrap().unwrap();
    assert_eq!(statement.sql, "UPDATE Hotel SET Name=$1,Description=$2,Stars=$3 WHERE ID = 5;");
    assert_eq!(
        statement.args,
        vec![Value::Text("New".into()), Value::Text("Newer".into()), Value::Int(4)]
    );
    assert!(!hotel::rules_changed(&update));
    assert_eq!(
        hotel::update_hotel(6, &manager, &update),
        Err(denied("Not owner or employee of hotel 6"))
    );
    let all = UpdateHotel {
        RuleSetID: Some(1),
        Name: Some("n".into()),
        Description: Some("d".into()),
        PhotoSetID: Some(2),
        Stars: Some(3),
    };
    let statement = hotel::update_hotel(5, &manager, &all).unwrap().unwrap();
    assert_eq!(
        statement.sql,
        "UPDATE Hotel SET RuleSetID=$1,Name=$2,Description=$3,PhotoSetID=$4,Stars=$5 WHERE ID = 5;"
    );
    assert!(hotel::rules_changed(&all));
}

#[test]
fn statements_about_hotels() {
    assert_eq!(
        hotel::get_rooms(5, Some(10), None).sql,
        "SELECT * FROM Room WHERE HotelID = $1   LIMIT 10 OFFSET 0;"
    );
    let statement = hotel::get_room(5, 101);
    assert_eq!(statement.sql, "SELECT * FROM Room WHERE HotelID = $1 and RoomNumber = $2    ;");
    assert_eq!(statement.args, vec![Value::Int(5), Value::Int(101)]);
    assert_eq!(
        hotel::room_found(5, 101, None),
        Err(missing("Room number 101 not found in hotel 5"))
    );
    let room = Room { HotelID: 5, RoomNumber: 101, RoomLevel: 1, PhotoSetID: None };
    assert_eq!(hotel::room_found(5, 101, Some(room.clone())), Ok(room));
    assert_eq!(
        hotel::get_reviews(5, None, Some(3)).sql,
        "SELECT Review.* FROM Review, Booking WHERE Booking.HotelID = $1 and Review.BookingID = Booking.ID   LIMIT 2147483647 OFFSET 3;"
    );
    assert_eq!(
        hotel::get_employees(5, Some(2), Some(1)).sql,
        "SELECT Person.* FROM EmployedIn, Person WHERE EmployedIn.HotelID = $1 and EmployedIn.PersonID = Person.ID   LIMIT 2 OFFSET 1;"
    );
    assert_eq!(hotel::get_hotels(None, None).args, Vec::<Value>::new());
}

#[test]
fn employees_are_dismissed_by_the_owner() {
    let owner = user(2, Some(vec![5]), None);
    let clerk = user(3, None, Some(vec![5]));
    assert_eq!(hotel::may_fire(5, &owner), Ok(()));
    assert_eq!(hotel::may_fire(5, &clerk), Err(denied("Not owner or employee of hotel 5")));
    assert_eq!(hotel::may_fire(6, &owner), Err(denied("Not owner or employee of hotel 6")));
    assert_eq!(
        hotel::fire_employee(5, 3, &clerk.roles),
        Err(missing("Person 3 is not employed in 5"))
    );
    let listed = Roles { EmployedIn: Some(vec![3]), ..roles(3) };
    let statement = hotel::fire_employee(5, 3, &listed).unwrap();
    assert_eq!(statement.sql, "DELETE FROM EmployedIn WHERE HotelID = $1, PersonID = $2;");
    assert_eq!(statement.args, vec![Value::Int(5), Value::Int(3)]);
}

fn rule_set(manager: Option<i32>) -> RuleSet {
    RuleSet { ID: 9, ManagerPersonID: manager, Name: "n".into(), Body: "b".into(), IsDefault: false }
}

fn manager_user(id: i32) -> Authorized {
    Authorized { id, roles: Roles { Manager: true, ..roles(id) } }
}

#[test]
fn rule_sets_are_for_managers() {
    let clerk = user(3, None, Some(vec![5]));
    let manager = manager_user(4);
    assert_eq!(
        manager::get_ruleset(&clerk, 9),
        Err(denied("Only manager can access rulesets"))
    );
    let statement = manager::get_ruleset(&manager, 9).unwrap();
    assert_eq!(statement.sql, "SELECT * FROM RuleSet WHERE ID = $1    ;");
    assert_eq!(statement, manager::ruleset_by_id(9));
    assert_eq!(manager::ruleset_found(9, None), Err(missing("RuleSet 9 not found")));
    assert_eq!(
        manager::get_rulesets(4).sql,
        "SELECT * FROM RuleSet WHERE ManagerPersonID = $1    ;"
    );
    let new = NewRuleSet { Name: "Summer".into(), Body: "{}".into() };
    assert_eq!(
        manager::put_ruleset(&clerk, new.clone()),
        Err(denied("Only manager can create rulesets"))
    );
    let statement = manager::put_ruleset(&manager, new).unwrap();
    assert_eq!(
        statement.sql,
        "INSERT INTO RuleSet (ManagerPersonID,Name,Body,IsDefault) VALUES ($1,$2,$3,$4);"
    );
    assert_eq!(
        statement.args,
        vec![
            Value::Int(4),
            Value::Text("Summer".into()),
            Value::Text("{}".into()),
            Value::Bool(false),
        ]
    );
}

#[test]
fn a_rule_set_is_changed_by_its_manager() {
    let manager = manager_user(4);
    let update = UpdateRuleSet { Name: Some("Winter".into()), Body: None };
    assert_eq!(
        manager::update_ruleset(9, &user(3, None, None), &update, &Some(rule_set(Some(3)))),
        Err(denied("Only manager can create rulesets"))
    );
    assert_eq!(
        manager::update_ruleset(9, &manager, &update, &None),
        Err(missing("No such ruleset"))
    );
    assert_eq!(
        manager::update_ruleset(9, &manager, &update, &Some(rule_set(Some(5)))),
        Err(denied("Only manager that created ruleset can edit it"))
    );
    let statement =
        manager::update_ruleset(9, &manager, &update, &Some(rule_set(Some(4)))).unwrap().unwrap();
    assert_eq!(statement.sql, "UPDATE RuleSet SET Name=$1 WHERE ID = 9;");
    assert_eq!(statement.args, vec![Value::Text("Winter".into())]);
    // A rule set without a manager becomes the caller's.
    let statement =
        manager::update_ruleset(9, &manager, &update, &Some(rule_set(None))).unwrap().unwrap();
    assert_eq!(statement.sql, "UPDATE RuleSet SET ManagerPersonID=$1,Name=$2 WHERE ID = 9;");
    assert_eq!(statement.args, vec![Value::Int(4), Value::Text("Winter".into())]);
    let nothing = UpdateRuleSet { Name: None, Body: None };
    assert_eq!(manager::update_ruleset(9, &manager, &nothing, &Some(rule_set(Some(4)))), Ok(None));
}

#[test]
fn the_removal_of_a_rule_set() {
    let manager = manager_user(4);
    let refused = Err(denied("Only creator of ruleset can delete it"));
    assert_eq!(manager::delete_ruleset(9, &manager, &None), Err(missing("No such ruleset")));
    assert_eq!(manager::delete_ruleset(9, &manager, &Some(rule_set(None))), refused);
    assert_eq!(manager::delete_ruleset(9, &manager, &Some(rule_set(Some(4)))), refused);
    let statement = manager::delete_ruleset(9, &manager, &Some(rule_set(Some(5)))).unwrap();
    assert_eq!(statement.sql, "DELETE FROM RuleSet WHERE ID = $1;");
    assert_eq!(statement.args, vec![Value::Int(9)]);
}

#[test]
fn the_default_rules() {
    let rules = ruleset::default_rules();
    let rooms: Vec<(Option<&str>, i32, i32)> =
        rules.RoomLevels.iter().map(|l| (l.Name.as_deref(), l.PerNight, l.Level)).collect();
    assert_eq!(
        rooms,
        vec![
            (Some("Ecomony"), 100, 0),
            (Some("Single"), 200, 1),
            (Some("Double"), 300, 2),
            (Some("Suit"), 400, 3),
        ]
    );
    let clients: Vec<(Option<&str>, i32, i32)> = rules
        .ClientLevels
        .iter()
        .map(|l| (l.Name.as_deref(), l.Discount, l.BookingsAmount))
        .collect();
    assert_eq!(clients, vec![(None, 0, 0), (None, 3, 10), (None, 5, 20), (None, 10, 50)]);

    let statements = ruleset::process_rules(&rules, 6);
    assert_eq!(statements.len(), 8);
    assert_eq!(
        statements[1],
        Statement {
            sql: "INSERT INTO RoomLevel (Level,RuleSetID,LevelName,PerNight) VALUES ($1,$2,$3,$4);"
                .to_string(),
            args: vec![Value::Int(1), Value::Int(6), Value::Text("Single".into()), Value::Int(200)],
        }
    );
    assert_eq!(
        statements[7],
        Statement {
            sql: "INSERT INTO ClientLevel (BookingsAmount,RuleSetID,LevelName,DiscountPercentage) VALUES ($1,$2,$3,$4);"
                .to_string(),
            args: vec![Value::Int(50), Value::Int(6), Value::Null, Value::Int(10)],
        }
    );
}

#[test]
fn the_default_rule_set() {
    let statement = ruleset::default_ruleset_id();
    assert_eq!(statement.sql, "SELECT * FROM RuleSet WHERE IsDefault = $1    ;");
    assert_eq!(statement.args, vec![Value::Bool(true)]);
    assert_eq!(ruleset::last_id(&Vec::new()), None);
    assert_eq!(ruleset::last_id(&vec![rule_set(None), RuleSet { ID: 3, ..rule_set(None) }]), Some(3));
    assert_eq!(
        ruleset::default_ruleset("{}".into()),
        RuleSet {
            ID: 0,
            ManagerPersonID: None,
            Name: "Default".into(),
            Body: "{}".into(),
            IsDefault: true
        }
    );
    assert_eq!(ruleset::hotel_ruleset(&None), Err(missing("No such Hotel")));
    let hotel = Hotel {
        ID: 1,
        OwnerPersonID: 2,
        RuleSetID: 3,
        CityID: 4,
        PhotoSetID: None,
        Name: "n".into(),
        Description: "d".into(),
        Rating: None,
        Stars: None,
    };
    assert_eq!(ruleset::hotel_ruleset(&Some(hotel)), Ok(3));
    assert_eq!(ruleset::ruleset_body(None), Err(missing("No such RuleSet")));
    assert_eq!(ruleset::ruleset_body(Some(rule_set(None))), Ok("b".to_string()));
}

fn request() -> SearchRequest {
    SearchRequest { CityID: 3, DateTime: None, Rating: None, Stars: None, Price: None, HotelID: None }
}

#[test]
fn the_conditions_of_a_search() {
    assert_eq!(search::rating_range_to_clause(&None), None);
    assert_eq!(
        search::rating_range_to_clause(&Some(Range { from: 2, to: 4 })),
        Some(" and (Hotel.Rating >= 2 and Hotel.Rating <= 4) or Hote.Rating = null".to_string())
    );
    assert_eq!(
        search::stars_range_to_clause(&Some(Range { from: 1, to: 5 })),
        Some(" and (Hotel.Stars >= 1 and Hotel.Stars <= 5)".to_string())
    );
    assert_eq!(
        search::price_range_to_clause(7, &Some(Range { from: 100, to: 300 })),
        Some(
            " and (SELECT room_price(Room.RoomLevel, Room.HotelID, 7)) >= 100 and (SELECT room_price(Room.RoomLevel, Room.HotelID, 7)) <= 300"
                .to_string()
        )
    );
    assert_eq!(
        search::date_range_to_clause(&Some(Range { from: at(0), to: at(86400) })),
        Some(
            " and NOT EXISTS( SELECT * FROM Booking WHERE Booking.HotelID = Room.HotelID and Booking.RoomNumber = Room.RoomNumber and (Booking.ArrivalTime > 1970-01-01 00:00:00 or Booking.DepartureTime < 1970-01-02 00:00:00); )"
                .to_string()
        )
    );
    assert_eq!(search::date_range_to_clause(&None), None);
    assert_eq!(
        search::date_range_to_clause(&Some(Range { from: at(0), to: at(i64::MAX) })),
        None
    );
    assert_eq!(
        search::date_clause("a", "b"),
        " and NOT EXISTS( SELECT * FROM Booking WHERE Booking.HotelID = Room.HotelID and Booking.RoomNumber = Room.RoomNumber and (Booking.ArrivalTime > a or Booking.DepartureTime < b); )"
    );
}

#[test]
fn the_statement_of_a_search() {
    let statement = search::search(&request(), 7).unwrap();
    assert_eq!(
        statement.sql,
        "SELECT Room.* FROM Room, Hotel WHERE Hotel.CityID = 3 and Room.HotelID = Hotel.ID GROUP BY Room.HotelID, Room.RoomLevel   ;"
    );
    assert_eq!(statement.args, Vec::<Value>::new());
    let all = SearchRequest {
        CityID: 3,
        DateTime: Some(Range { from: at(0), to: at(1) }),
        Rating: Some(Range { from: 1, to: 2 }),
        Stars: Some(Range { from: 3, to: 4 }),
        Price: Some(Range { from: 5, to: 6 }),
        HotelID: Some(8),
    };
    assert_eq!(
        search::search(&all, 7).unwrap().sql,
        "SELECT Room.* FROM Room, Hotel WHERE Hotel.ID = 8 and Room.HotelID = Hotel.ID and (Hotel.Rating >= 1 and Hotel.Rating <= 2) or Hote.Rating = null and (Hotel.Stars >= 3 and Hotel.Stars <= 4) and (SELECT room_price(Room.RoomLevel, Room.HotelID, 7)) >= 5 and (SELECT room_price(Room.RoomLevel, Room.HotelID, 7)) <= 6 and NOT EXISTS( SELECT * FROM Booking WHERE Booking.HotelID = Room.HotelID and Booking.RoomNumber = Room.RoomNumber and (Booking.ArrivalTime > 1970-01-01 00:00:00 or Booking.DepartureTime < 1970-01-01 00:00:01); ) GROUP BY Room.HotelID, Room.RoomLevel   ;"
    );
    let unwritable =
        SearchRequest { DateTime: Some(Range { from: at(i64::MIN), to: at(0) }), ..request() };
    assert_eq!(search::search(&unwritable, 7), None);
}

#[test]
fn the_price_of_a_room() {
    let room = Room { HotelID: 5, RoomNumber: 101, RoomLevel: 2, PhotoSetID: None };
    let statement = PricedRoom::price_statement(&room, 7);
    assert_eq!(statement.sql, "SELECT room_price($1, $2, $3)");
    assert_eq!(statement.args, vec![Value::Int(2), Value::Int(5), Value::Int(7)]);
    assert_eq!(PricedRoom::from_room(room.clone(), 250), PricedRoom { Room: room, Price: 250 });
}

#[test]
fn failures_as_json() {
    let e = ApiFailure::from_str(ErrorCode::NotFoundError, "No such Hotel");
    assert_eq!(e.code(), 7);
    assert_eq!(e.description(), "No such Hotel");
    assert_eq!(e.json(), "{\"err_code\":\"7\", \"description\":\"No such Hotel\"}");
    let numbers: Vec<i32> = [
        ErrorCode::InvalidSchemaError,
        ErrorCode::IncompleteDataError,
        ErrorCode::SigninError,
        ErrorCode::SignupError,
        ErrorCode::NotAuthorizedError,
        ErrorCode::OldPasswordIsInvalidError,
        ErrorCode::NotFoundError,
    ]
    .iter()
    .map(|c| i32::from(*c))
    .collect();
    assert_eq!(numbers, vec![1, 2, 3, 4, 5, 6, 7]);
}

#[test]
fn answers_in_the_older_form() {
    let data: ApiResponse<i32> = ApiResponse::Data(4);
    assert_eq!(data.status(), 200);
    assert_eq!(data.to_json("4"), "4");
    let failure = error::ErrorCode::SigninError.into_response("no".to_string());
    assert_eq!(failure, ApiResponse::Failure(2, "no".to_string()));
    assert_eq!(failure.status(), 403);
    assert_eq!(failure.to_json(""), "{ \"error_code\": 2, \"description\": \"no\" }");
    let ok: i32 = error::ErrorCode::OK.into();
    assert_eq!(ok, 0);
    assert_eq!(i32::from(error::ErrorCode::InvalidSchemaError), 1);
    assert_eq!(i32::from(error::ErrorCode::SignupError), 3);
}

#[test]
fn what_the_filling_tool_says() {
    assert_eq!(
        populate::signin_body("owner", "0"),
        "{ \"Login\":\"owner\", \"PassHash\":\"0\"}"
    );
    assert_eq!(
        populate::signup_body("l", "n", "e", "h"),
        "{ \"Login\":\"l\", \"Name\":\"n\", \"Email\":\"e\", \"PassHash\":\"h\"}"
    );
    assert_eq!(populate::city_body("Oslo"), "{\"Name\":\"Oslo\"}");
    assert_eq!(populate::room_url(12), "http://localhost:8080/api/hotel/12/room/");
    assert_eq!(populate::choice(7, 5), 2);
    assert_eq!(populate::choice(-7, 5), 2);
    assert_eq!(populate::choice(-10, 5), 0);
    assert_eq!(populate::choice(i32::MIN, 4), 0);
    assert_eq!(populate::choice(i32::MIN, 5), (i32::MIN % 5).abs());
    assert_eq!(populate::city_of(-7, 22), 8);
    assert_eq!(populate::city_of(21, 22), 22);
    assert_eq!(populate::city_of(22, 22), 1);
    let cookies = vec![
        ("token".to_string(), "1".to_string()),
        ("other".to_string(), "x".to_string()),
        ("token".to_string(), "2".to_string()),
        ("Token".to_string(), "3".to_string()),
    ];
    assert_eq!(populate::token_of(&cookies), Some("2".to_string()));
    assert_eq!(populate::token_of(&cookies[1..2].to_vec()), None);
}

#[test]
fn what_is_known_of_a_person_is_never_replaced() {
    let mut known = RolesMap::new();
    // Two inquiries into one person run side by side.
    let slow = match RoleInquiry::begin(4) {
        RoleStep::Ask(_, inquiry) => inquiry,
        other => panic!("{:?}", other),
    };
    let mut fast = Authorizer::get_roles(&known, 4);
    while let RoleStep::Ask(_, inquiry) = fast {
        fast = Authorizer::answer_roles(&mut known, inquiry, RoleAnswer::Exists(false));
    }
    assert_eq!(fast, RoleStep::Done(roles(4)));

    // The slow one sees a manager, but the roles of the person are known.
    let mut step = Authorizer::answer_roles(&mut known, slow, RoleAnswer::Exists(false));
    let replies = vec![
        RoleAnswer::Exists(true),
        RoleAnswer::Exists(false),
        RoleAnswer::Exists(false),
        RoleAnswer::Hotels(vec![9]),
    ];
    for reply in replies {
        step = match step {
            RoleStep::Ask(_, inquiry) => Authorizer::answer_roles(&mut known, inquiry, reply),
            done => done,
        };
    }
    assert_eq!(step, RoleStep::Done(roles(4)));
    assert_eq!(known.get(4), Some(roles(4)));
}
