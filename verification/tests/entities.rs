use hotel_service::db::row::{Kind, Row, Timestamp, Value};
use hotel_service::db::schema::{
    AssignedCleaning, Booking, City, Cleaner, Client, ClientLevel, EmployedIn, Hotel, MaintainedBy,
    Manager, Owner, Person, Photo, PhotoSet, PhotoSetPhotos, Receptionist, Review, Room, RoomLevel,
    RuleSet,
};
use hotel_service::db::schemaext::procedure;
use hotel_service::db::schemaext::AccountInfo;
use hotel_service::db::{Deletable, Entity, Insertable, QueryBuilder, Queryable, Updatable};
use rand::Rng;

// The row that the database holds after the record's INSERT ran with the
// record's arguments: the assigned ID first, if there is one, then the
// columns of the statement with the arguments at their places.
fn stored(sql: &str, args: Vec<Value>, id: Option<i32>) -> Row {
    let (_, rest) = sql.split_once(" (").unwrap();
    let (columns, holders) = rest.split_once(") VALUES (").unwrap();
    let columns: Vec<&str> = columns.split(',').collect();
    let holders: Vec<&str> = holders.strip_suffix(");").unwrap().split(',').collect();
    assert_eq!(columns.len(), args.len());
    assert_eq!(holders.len(), args.len());
    let mut row = Row::new();
    if let Some(id) = id {
        row = row.with("ID", Value::Int(id));
    }
    for (i, column) in columns.iter().enumerate() {
        assert_eq!(holders[i], format!("${}", i + 1));
        row = row.with(column, args[i].clone());
    }
    row
}

fn at(seconds: i64) -> Timestamp {
    Timestamp { seconds, nanos: 0 }
}

#[test]
fn person_statements() {
    assert_eq!(Person::select_builder().build(), "SELECT * FROM Person     ;");
    assert_eq!(Person::delete_builder().build(), "DELETE FROM Person ;");
    assert_eq!(
        Person::update_builder().set("Name").build(),
        "UPDATE Person SET Name=$1 ;"
    );
    assert_eq!(
        Person::insert_builder().build(),
        "INSERT INTO Person (Login,Name,Email,PassHash) VALUES ($1,$2,$3,$4);"
    );
    assert_eq!(Person::insert_query(), Person::insert_builder().build());
}

#[test]
fn insert_statements_of_the_tables() {
    assert_eq!(Owner::insert_query(), "INSERT INTO Owner (PersonID) VALUES ($1);");
    assert_eq!(Manager::insert_query(), "INSERT INTO Manager (PersonID) VALUES ($1);");
    assert_eq!(Receptionist::insert_query(), "INSERT INTO Receptionist (PersonID) VALUES ($1);");
    assert_eq!(Cleaner::insert_query(), "INSERT INTO Cleaner (PersonID) VALUES ($1);");
    assert_eq!(
        RuleSet::insert_query(),
        "INSERT INTO RuleSet (ManagerPersonID,Name,Body,IsDefault) VALUES ($1,$2,$3,$4);"
    );
    assert_eq!(
        RoomLevel::insert_query(),
        "INSERT INTO RoomLevel (Level,RuleSetID,LevelName,PerNight) VALUES ($1,$2,$3,$4);"
    );
    assert_eq!(
        ClientLevel::insert_query(),
        "INSERT INTO ClientLevel (BookingsAmount,RuleSetID,LevelName,DiscountPercentage) VALUES ($1,$2,$3,$4);"
    );
    assert_eq!(
        Review::insert_query(),
        "INSERT INTO Review (BookingID,Body,LocationRate,CleanlinessRate,ServiceRate,ValueForMoneyRate,CreatedAt) VALUES ($1,$2,$3,$4,$5,$6,$7);"
    );
    assert_eq!(
        Client::insert_query(),
        "INSERT INTO Client (PersonID,ClientLevelID) VALUES ($1,$2);"
    );
    assert_eq!(Photo::insert_query(), "INSERT INTO Photo (Blob) VALUES ($1);");
    assert_eq!(
        PhotoSetPhotos::insert_query(),
        "INSERT INTO PhotoSetPhotos (PhotoSetID,PhotoID) VALUES ($1,$2);"
    );
    assert_eq!(City::insert_query(), "INSERT INTO City (Name) VALUES ($1);");
    assert_eq!(
        Hotel::insert_query(),
        "INSERT INTO Hotel (OwnerPersonID,RuleSetID,CityID,PhotoSetID,Name,Description,Rating,Stars) VALUES ($1,$2,$3,$4,$5,$6,$7,$8);"
    );
    assert_eq!(
        EmployedIn::insert_query(),
        "INSERT INTO EmployedIn (PersonID,HotelID) VALUES ($1,$2);"
    );
    assert_eq!(
        Room::insert_query(),
        "INSERT INTO Room (HotelID,RoomNumber,RoomLevel,PhotoSetID) VALUES ($1,$2,$3,$4);"
    );
    assert_eq!(
        Booking::insert_query(),
        "INSERT INTO Booking (ClientPersonID,HotelID,RoomNumber,BookingTime,ArrivalTime,DepartureTime,FullCost,Paid) VALUES ($1,$2,$3,$4,$5,$6,$7,$8);"
    );
    assert_eq!(
        MaintainedBy::insert_query(),
        "INSERT INTO MaintainedBy (BookingID,ReceptionistPersonID,MaintainedAt) VALUES ($1,$2,$3);"
    );
    assert_eq!(
        AssignedCleaning::insert_query(),
        "INSERT INTO AssignedCleaning (ToCleanID,CleanerPersonID) VALUES ($1,$2);"
    );
}

#[test]
fn a_table_with_nothing_but_its_id_inserts_no_column() {
    assert_eq!(PhotoSet::insert_query(), "INSERT INTO PhotoSet () VALUES ();");
    assert_eq!(PhotoSet::new(), PhotoSet { ID: -1 });
    assert_eq!(PhotoSet::new().insert_args(), Vec::<Value>::new());
    assert_eq!(PhotoSet::select_builder().build(), "SELECT * FROM PhotoSet     ;");
}

#[test]
fn new_records_have_no_identity_yet() {
    let p = Person::new("l".into(), "n".into(), "e".into(), "h".into());
    assert_eq!(
        p,
        Person { ID: -1, Login: "l".into(), Name: "n".into(), Email: "e".into(), PassHash: "h".into() }
    );
    assert_eq!(City::new("Oslo".into()), City { ID: -1, Name: "Oslo".into() });
    assert_eq!(Owner::new(4), Owner { PersonID: 4 });
    assert_eq!(
        AccountInfo::new(3, "l".into(), "n".into(), "e".into()),
        AccountInfo { ID: 3, Login: "l".into(), Name: "n".into(), Email: "e".into() }
    );
}

#[test]
fn the_arguments_follow_the_columns_of_the_insert() {
    let hotel = Hotel {
        ID: 12,
        OwnerPersonID: 1,
        RuleSetID: 2,
        CityID: 3,
        PhotoSetID: None,
        Name: "Inn".into(),
        Description: "By the sea".into(),
        Rating: Some(4),
        Stars: None,
    };
    assert_eq!(
        hotel.insert_args(),
        vec![
            Value::Int(1),
            Value::Int(2),
            Value::Int(3),
            Value::Null,
            Value::Text("Inn".into()),
            Value::Text("By the sea".into()),
            Value::Int(4),
            Value::Null,
        ]
    );
    assert_eq!(procedure::insert_hotel(&hotel).args, hotel.insert_args());
}

#[test]
fn records_come_back_from_the_rows_that_their_inserts_stored() {
    let person = Person {
        ID: 7,
        Login: "alice".into(),
        Name: "Alice".into(),
        Email: "a@x.com".into(),
        PassHash: "h1".into(),
    };
    let row = stored(&Person::insert_query(), person.insert_args(), Some(7));
    assert_eq!(Person::from_row(&row), Some(person.clone()));
    // The database assigns the ID: the rest is the record's.
    let row = stored(&Person::insert_query(), person.insert_args(), Some(8));
    assert_eq!(Person::from_row(&row), Some(Person { ID: 8, ..person }));

    let rule_set = RuleSet {
        ID: 1,
        ManagerPersonID: None,
        Name: "Default".into(),
        Body: "{}".into(),
        IsDefault: true,
    };
    let row = stored(&RuleSet::insert_query(), rule_set.insert_args(), Some(1));
    assert_eq!(RuleSet::from_row(&row), Some(rule_set));

    let level = RoomLevel { Level: 2, RuleSetID: 1, LevelName: Some("Double".into()), PerNight: 300 };
    let row = stored(&RoomLevel::insert_query(), level.insert_args(), None);
    assert_eq!(RoomLevel::from_row(&row), Some(level));

    let level =
        ClientLevel { BookingsAmount: 10, RuleSetID: 1, LevelName: None, DiscountPercentage: 3 };
    let row = stored(&ClientLevel::insert_query(), level.insert_args(), None);
    assert_eq!(ClientLevel::from_row(&row), Some(level));

    let review = Review {
        ID: 5,
        BookingID: 6,
        Body: "fine".into(),
        LocationRate: 1,
        CleanlinessRate: 2,
        ServiceRate: 3,
        ValueForMoneyRate: 4,
        CreatedAt: Timestamp { seconds: 1431648000, nanos: 5 },
    };
    let row = stored(&Review::insert_query(), review.insert_args(), Some(5));
    assert_eq!(Review::from_row(&row), Some(review));

    let photo = Photo { ID: 2, Blob: vec![0, 255, 7] };
    let row = stored(&Photo::insert_query(), photo.insert_args(), Some(2));
    assert_eq!(Photo::from_row(&row), Some(photo));

    let booking = Booking {
        ID: 9,
        ClientPersonID: 1,
        HotelID: 2,
        RoomNumber: 3,
        BookingTime: at(10),
        ArrivalTime: at(20),
        DepartureTime: at(30),
        FullCost: 400,
        Paid: false,
    };
    let row = stored(&Booking::insert_query(), booking.insert_args(), Some(9));
    assert_eq!(Booking::from_row(&row), Some(booking));

    let room = Room { HotelID: 1, RoomNumber: 101, RoomLevel: 2, PhotoSetID: Some(3) };
    let row = stored(&Room::insert_query(), room.insert_args(), None);
    assert_eq!(Room::from_row(&row), Some(room));

    let note = MaintainedBy { BookingID: 1, ReceptionistPersonID: 2, MaintainedAt: at(3) };
    let row = stored(&MaintainedBy::insert_query(), note.insert_args(), None);
    assert_eq!(MaintainedBy::from_row(&row), Some(note));

    let employed = EmployedIn { PersonID: 1, HotelID: 2 };
    let row = stored(&EmployedIn::insert_query(), employed.insert_args(), None);
    assert_eq!(EmployedIn::from_row(&row), Some(employed));
}

#[test]
fn a_record_is_read_by_the_names_of_its_columns_not_by_their_places() {
    let row = Row::new()
        .with("Extra", Value::Bool(true))
        .with("Name", Value::Text("Oslo".into()))
        .with("ID", Value::Int(3));
    assert_eq!(City::from_row(&row), Some(City { ID: 3, Name: "Oslo".into() }));
}

#[test]
fn a_record_needs_every_column_with_a_value_of_its_kind() {
    let row = Row::new().with("ID", Value::Int(3));
    assert_eq!(City::from_row(&row), None);
    let row = Row::new().with("ID", Value::Text("3".into())).with("Name", Value::Text("x".into()));
    assert_eq!(City::from_row(&row), None);
    let row = Row::new().with("ID", Value::Null).with("Name", Value::Text("x".into()));
    assert_eq!(City::from_row(&row), None);
    let row = Row::new()
        .with("HotelID", Value::Int(1))
        .with("RoomNumber", Value::Int(2))
        .with("RoomLevel", Value::Int(3))
        .with("PhotoSetID", Value::Text("no".into()));
    assert_eq!(Room::from_row(&row), None);
}

#[test]
fn a_name_stands_for_the_exact_cell_before_one_in_another_case() {
    let row = Row::new()
        .with("name", Value::Text("lower".into()))
        .with("Name", Value::Text("exact".into()))
        .with("NAME", Value::Text("upper".into()));
    assert_eq!(row.get("Name"), Some(&Value::Text("exact".into())));
    assert_eq!(row.get("NAME"), Some(&Value::Text("upper".into())));
    assert_eq!(row.get("nAME"), Some(&Value::Text("lower".into())));
    assert_eq!(row.get("Nam"), None);
    assert_eq!(row.len(), 3);
    assert_eq!(row.at(1), Some(&Value::Text("exact".into())));
    assert_eq!(row.at(3), None);
}

#[test]
fn a_name_stands_for_the_first_of_equal_cells() {
    let row = Row::new().with("ID", Value::Int(1)).with("ID", Value::Int(2));
    assert_eq!(row.integer("ID"), Some(1));
    let row = Row::new().with("id", Value::Int(1)).with("Id", Value::Int(2));
    assert_eq!(row.integer("ID"), Some(1));
}

#[test]
fn only_ascii_letters_are_folded() {
    let row = Row::new().with("é", Value::Int(1)).with("k", Value::Int(2));
    assert_eq!(row.get("É"), None);
    // The Kelvin sign is no capital K.
    assert_eq!(row.get("\u{212A}"), None);
    assert_eq!(row.integer("K"), Some(2));
}

#[test]
fn typed_reading_of_cells() {
    let row = Row::new()
        .with("i", Value::Int(-5))
        .with("t", Value::Text("x".into()))
        .with("b", Value::Bool(true))
        .with("y", Value::Bytes(vec![1, 2]))
        .with("w", Value::Time(at(9)))
        .with("n", Value::Null);
    assert_eq!(row.integer("i"), Some(-5));
    assert_eq!(row.integer("t"), None);
    assert_eq!(row.integer("n"), None);
    assert_eq!(row.text("t"), Some("x".to_string()));
    assert_eq!(row.text("i"), None);
    assert_eq!(row.boolean("b"), Some(true));
    assert_eq!(row.boolean("n"), None);
    assert_eq!(row.bytes("y"), Some(vec![1, 2]));
    assert_eq!(row.time("w"), Some(at(9)));
    assert_eq!(row.opt_integer("i"), Some(Some(-5)));
    assert_eq!(row.opt_integer("n"), Some(None));
    assert_eq!(row.opt_integer("t"), None);
    assert_eq!(row.opt_integer("missing"), None);
    assert_eq!(row.opt_text("t"), Some(Some("x".to_string())));
    assert_eq!(row.opt_text("n"), Some(None));
    assert_eq!(row.opt_text("b"), None);
    assert_eq!(row.take("i", Kind::Int), Some(Value::Int(-5)));
    assert_eq!(row.take("i", Kind::Text), None);
    assert_eq!(row.take("n", Kind::OptText), Some(Value::Null));
}

#[test]
fn the_identity_that_a_procedure_returned() {
    let rows = vec![Row::new().with("insert_hotel_and_return_id", Value::Int(41))];
    assert_eq!(procedure::returned_id(&rows), Some(41));
    assert_eq!(procedure::returned_id(&Vec::new()), None);
    assert_eq!(procedure::returned_id(&vec![Row::new()]), None);
    assert_eq!(procedure::returned_id(&vec![Row::new().with("x", Value::Null)]), None);
    let call = procedure::insert_booking(1, 2, 3, at(4), at(5), at(6));
    assert_eq!(call.sql, "SELECT insert_booking_and_return_id($1, $2, $3, $4, $5, $6);");
    assert_eq!(
        call.args,
        vec![
            Value::Int(1),
            Value::Int(2),
            Value::Int(3),
            Value::Time(at(4)),
            Value::Time(at(5)),
            Value::Time(at(6)),
        ]
    );
}

#[test]
fn dates_and_times_as_text() {
    assert_eq!(at(0).text(), Some("1970-01-01 00:00:00".to_string()));
    assert_eq!(at(1431648000).text(), Some("2015-05-15 00:00:00".to_string()));
    assert_eq!(
        Timestamp { seconds: 947638923, nanos: 4_000_000 }.text(),
        Some("2000-01-12 01:02:03.004".to_string())
    );
    assert_eq!(at(i64::MAX).text(), None);
    assert_eq!(Timestamp { seconds: 0, nanos: 2_000_000_000 }.text(), None);
    assert!(at(1) < at(2));
    assert!(Timestamp { seconds: 1, nanos: 5 } > Timestamp { seconds: 1, nanos: 4 });
}

// The cell that a name stands for as the database driver finds it: the first
// with exactly this name, else the first with this name in another case.
fn found<'a>(cells: &'a [(String, Value)], name: &str) -> Option<&'a Value> {
    cells
        .iter()
        .position(|c| c.0 == name)
        .or_else(|| cells.iter().position(|c| c.0.eq_ignore_ascii_case(name)))
        .map(|i| &cells[i].1)
}

#[test]
fn names_are_looked_up_as_the_database_driver_does() {
    let mut rng = rand::thread_rng();
    let alphabet = ['a', 'A', 'b', 'B', 'é', 'É', '_'];
    for _ in 0..2000 {
        let mut cells: Vec<(String, Value)> = Vec::new();
        let mut row = Row::new();
        for i in 0..rng.gen_range(0..5) {
            let len = rng.gen_range(0..3);
            let name: String = (0..len).map(|_| alphabet[rng.gen_range(0..alphabet.len())]).collect();
            row = row.with(&name, Value::Int(i));
            cells.push((name, Value::Int(i)));
        }
        let len = rng.gen_range(0..3);
        let wanted: String = (0..len).map(|_| alphabet[rng.gen_range(0..alphabet.len())]).collect();
        assert_eq!(row.get(&wanted), found(&cells, &wanted), "{:?} in {:?}", wanted, cells);
    }
}
