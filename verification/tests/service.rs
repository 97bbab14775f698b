// The library serves requests in turns: it hands out statements and decides on
// the rows that came back. These tests play the part of the program around it,
// with a small table store in the place of the database. The store keeps the
// column names in lower case, as a database does that folds the case of
// unquoted names.

use hotel_service::api::account;
use hotel_service::api::authorization::{
    Authorized, Authorizer, RoleAnswer, RoleQuestion, RoleStep, RolesMap, TokenMap,
};
use hotel_service::api::city;
use hotel_service::api::hotel;
use hotel_service::db::row::{Row, Statement, Value};
use hotel_service::db::schema::{City, Hotel, Person};
use hotel_service::db::schemaext::procedure;
use hotel_service::db::schemaext::AccountInfo;
use hotel_service::db::{
    Deletable, Entity, Insertable, QueryBuilder, Queryable, Updatable,
};
use hotel_service::proto::error::{ApiFailure, ApiResult, ErrorCode};
use hotel_service::proto::schema::{
    NewCity, NewHotel, Roles, SigninData, SignupData, UpdateAccountInfoData, UpdateHotel,
};
use rand::distributions::Alphanumeric;
use rand::Rng;
use std::collections::HashMap;

type Cells = Vec<(String, Value)>;

struct Store {
    tables: HashMap<String, Vec<Cells>>,
    next_id: i32,
    statements: usize,
}

fn keyed(table: &str) -> bool {
    matches!(
        table,
        "person" | "city" | "hotel" | "ruleset" | "review" | "booking" | "photo" | "photoset"
    )
}

fn cell<'a>(row: &'a Cells, name: &str) -> Option<&'a Value> {
    row.iter().find(|c| c.0 == name.to_lowercase()).map(|c| &c.1)
}

fn literal(text: &str, args: &[Value]) -> Value {
    let text = text.trim();
    if let Some(n) = text.strip_prefix('$') {
        return args[n.parse::<usize>().unwrap() - 1].clone();
    }
    if text.starts_with('\'') {
        return Value::Text(text.trim_matches('\'').to_string());
    }
    Value::Int(text.parse().unwrap())
}

fn meets(row: &Cells, condition: &str, args: &[Value]) -> bool {
    condition.split(" and ").all(|part| {
        let (column, value) = part.split_once('=').unwrap();
        cell(row, column.trim()) == Some(&literal(value, args))
    })
}

fn after<'a>(text: &'a str, word: &str) -> Option<&'a str> {
    text.find(word).map(|i| &text[i + word.len()..])
}

fn before<'a>(text: &'a str, words: &[&str]) -> &'a str {
    let end = words.iter().filter_map(|w| text.find(w)).min().unwrap_or(text.len());
    &text[..end]
}

impl Store {
    fn new() -> Store {
        Store { tables: HashMap::new(), next_id: 1, statements: 0 }
    }

    fn rows(&mut self, table: &str) -> &mut Vec<Cells> {
        self.tables.entry(table.to_lowercase()).or_default()
    }

    fn insert(&mut self, table: &str, columns: &[&str], args: &[Value]) -> Result<i32, String> {
        assert_eq!(columns.len(), args.len());
        let table = table.to_lowercase();
        let mut row: Cells = Vec::new();
        let id = self.next_id;
        if keyed(&table) {
            row.push(("id".to_string(), Value::Int(id)));
            self.next_id += 1;
        }
        for (column, value) in columns.iter().zip(args) {
            row.push((column.to_lowercase(), value.clone()));
        }
        if table == "person" {
            let login = cell(&row, "login").cloned();
            if self.rows("person").iter().any(|r| cell(r, "login").cloned() == login) {
                return Err("duplicate key value violates unique constraint".to_string());
            }
        }
        self.rows(&table).push(row);
        Ok(id)
    }

    // Runs a statement of the few forms that the builders write.
    fn run(&mut self, statement: &Statement) -> Result<Vec<Row>, String> {
        self.statements += 1;
        let sql = statement.sql.as_str();
        let args = &statement.args;
        let body = sql.strip_suffix(';').unwrap_or(sql);
        if let Some(rest) = body.strip_prefix("INSERT INTO ") {
            let (table, rest) = rest.split_once(" (").unwrap();
            let (columns, rest) = rest.split_once(") VALUES (").unwrap();
            let columns: Vec<&str> = columns.split(',').collect();
            let holders: Vec<String> = (1..=columns.len()).map(|i| format!("${}", i)).collect();
            assert_eq!(rest, format!("{})", holders.join(",")));
            self.insert(table, &columns, args)?;
            return Ok(Vec::new());
        }
        if let Some(rest) = body.strip_prefix("SELECT insert_hotel_and_return_id(") {
            assert_eq!(rest, "$1, $2, $3, $4, $5, $6, $7, $8)");
            let columns = [
                "OwnerPersonID",
                "RuleSetID",
                "CityID",
                "PhotoSetID",
                "Name",
                "Description",
                "Rating",
                "Stars",
            ];
            let id = self.insert("Hotel", &columns, args)?;
            return Ok(vec![Row::new().with("insert_hotel_and_return_id", Value::Int(id))]);
        }
        if let Some(rest) = body.strip_prefix("SELECT ") {
            let (columns, rest) = rest.split_once(" FROM ").unwrap();
            let table = before(rest, &[" "]).to_string();
            let condition = after(rest, " WHERE ")
                .map(|c| before(c, &["  ", " LIMIT ", " OFFSET ", " GROUP BY ", " ORDER BY "]));
            let limit = after(rest, " LIMIT ").map(|n| before(n, &[" "]).parse::<i64>().unwrap());
            let offset = after(rest, " OFFSET ").map(|n| before(n, &[" "]).parse::<i64>().unwrap());
            let found: Vec<Cells> = self
                .rows(&table)
                .iter()
                .filter(|r| condition.map_or(true, |c| meets(r, c, args)))
                .skip(offset.unwrap_or(0) as usize)
                .take(limit.unwrap_or(i64::MAX) as usize)
                .cloned()
                .collect();
            let wanted: Option<Vec<String>> = if columns == "*" {
                None
            } else {
                Some(columns.split(',').map(|c| c.trim().to_lowercase()).collect())
            };
            return Ok(found
                .iter()
                .map(|r| {
                    r.iter()
                        .filter(|c| wanted.as_ref().map_or(true, |w| w.contains(&c.0)))
                        .fold(Row::new(), |row, c| row.with(&c.0, c.1.clone()))
                })
                .collect());
        }
        if let Some(rest) = body.strip_prefix("UPDATE ") {
            let (table, rest) = rest.split_once(" SET ").unwrap();
            let (assignments, condition) = match rest.split_once(" WHERE ") {
                Some((a, c)) => (a, Some(c)),
                None => (rest.trim_end(), None),
            };
            let changes: Vec<(String, Value)> = assignments
                .split(',')
                .map(|a| {
                    let (column, value) = a.split_once('=').unwrap();
                    (column.to_lowercase(), literal(value, args))
                })
                .collect();
            for row in self.rows(table).iter_mut() {
                if condition.map_or(true, |c| meets(row, c, args)) {
                    for (column, value) in &changes {
                        let at = row.iter().position(|c| &c.0 == column).unwrap();
                        row[at].1 = value.clone();
                    }
                }
            }
            return Ok(Vec::new());
        }
        if let Some(rest) = body.strip_prefix("DELETE FROM ") {
            let table = before(rest, &[" "]).to_string();
            let condition = after(rest, " WHERE ");
            self.rows(&table).retain(|r| !condition.map_or(true, |c| meets(r, c, args)));
            return Ok(Vec::new());
        }
        panic!("the store does not know the statement {:?}", sql);
    }
}

struct Service {
    store: Store,
    tokens: TokenMap,
    roles: RolesMap,
}

impl Service {
    fn new() -> Service {
        Service { store: Store::new(), tokens: TokenMap::new(), roles: RolesMap::new() }
    }

    // The service as it is after a restart: the stores of tokens and roles
    // are empty again, the database is as it was.
    fn restarted(self) -> Service {
        Service { store: self.store, tokens: TokenMap::new(), roles: RolesMap::new() }
    }

    fn query<E: Entity>(&mut self, statement: &Statement) -> Vec<E> {
        let rows = self.store.run(statement).unwrap();
        rows.iter().map(|r| E::from_row(r).expect("a row of the record's shape")).collect()
    }

    fn signin(&mut self, login: &str, passhash: &str) -> ApiResult<String> {
        let data = SigninData { Login: login.to_string(), PassHash: passhash.to_string() };
        let found: Vec<Person> = self.query(&Authorizer::signin_statement(&data));
        assert!(found.len() <= 1, "Database is inconsistent");
        Authorizer::signin(&mut self.tokens, &found)
    }

    fn signup(&mut self, login: &str, name: &str, email: &str, passhash: &str) -> ApiResult<String> {
        let data = SignupData {
            Login: login.to_string(),
            Name: name.to_string(),
            Email: email.to_string(),
            PassHash: passhash.to_string(),
        };
        let stored = self.store.run(&Authorizer::signup_statement(&data)).map(|_| ());
        let next = Authorizer::signup(stored, &data)?;
        self.signin(&next.Login, &next.PassHash)
    }

    fn complete(&mut self, mut step: RoleStep) -> Roles {
        loop {
            match step {
                RoleStep::Done(roles) => return roles,
                RoleStep::Ask(question, inquiry) => {
                    let rows = self.store.run(&question.statement(inquiry.id())).unwrap();
                    let reply = match question {
                        RoleQuestion::OwnedHotels => RoleAnswer::Hotels(
                            rows.iter().map(|r| r.integer("ID").unwrap()).collect(),
                        ),
                        RoleQuestion::EmployedIn => RoleAnswer::Hotels(
                            rows.iter().map(|r| r.integer("HotelID").unwrap()).collect(),
                        ),
                        _ => RoleAnswer::Exists(!rows.is_empty()),
                    };
                    step = Authorizer::answer_roles(&mut self.roles, inquiry, reply);
                },
            }
        }
    }

    fn get_roles(&mut self, id: i32) -> Roles {
        let step = Authorizer::get_roles(&self.roles, id);
        self.complete(step)
    }

    fn authorize(&mut self, token: Option<&str>) -> ApiResult<Authorized> {
        let id = Authorizer::authorize_request(&self.tokens, token)?;
        let roles = self.get_roles(id);
        Ok(Authorized { id, roles })
    }

    fn account_info(&mut self, token: &str) -> ApiResult<AccountInfo> {
        let client = self.authorize(Some(token))?;
        let found: Vec<AccountInfo> = self.query(&account::get_account_info(client.id));
        Ok(found.into_iter().last().unwrap())
    }

    fn update_account_info(&mut self, token: &str, data: &UpdateAccountInfoData) -> ApiResult<()> {
        let client = self.authorize(Some(token))?;
        let matches = match account::old_password_check(client.id, data)? {
            Some(check) => self.store.run(&check).unwrap().len(),
            None => 0,
        };
        if let Some(update) = account::update_account_info(client.id, data, matches)? {
            self.store.run(&update).unwrap();
        }
        Ok(())
    }

    fn put_city(&mut self, name: &str) {
        let new_city = NewCity { Name: name.to_string() };
        self.store.run(&city::put_city(&new_city)).unwrap();
    }

    fn get_cities(&mut self) -> Vec<City> {
        self.query(&city::get_cities())
    }

    fn put_hotel(&mut self, token: &str, new_hotel: NewHotel) -> ApiResult<i32> {
        let user = self.authorize(Some(token))?;
        let stored = hotel::put_hotel(&user, new_hotel, 1)?;
        let rows = self.store.run(&procedure::insert_hotel(&stored)).unwrap();
        Ok(procedure::returned_id(&rows).unwrap())
    }

    fn get_hotels(&mut self, cnt: Option<i32>, offset: Option<i32>) -> Vec<Hotel> {
        self.query(&hotel::get_hotels(cnt, offset))
    }

    fn get_hotel(&mut self, hotel_id: i32) -> ApiResult<Hotel> {
        let found: Vec<Hotel> = self.query(&hotel::get_hotel(hotel_id));
        hotel::hotel_found(hotel_id, found.into_iter().last())
    }

    fn update_hotel(&mut self, token: &str, hotel_id: i32, update: &UpdateHotel) -> ApiResult<()> {
        let user = self.authorize(Some(token))?;
        if let Some(statement) = hotel::update_hotel(hotel_id, &user, update)? {
            self.store.run(&statement).unwrap();
        }
        Ok(())
    }

    // A service with a person who owns hotels, signed in.
    fn with_owner() -> (Service, String) {
        let mut service = Service::new();
        let token = service.signup("owner", "Owner", "owner@example.com", "0").unwrap();
        let id = service.tokens.get(&token).unwrap();
        service.store.insert("Owner", &["PersonID"], &[Value::Int(id)]).unwrap();
        (service, token)
    }
}

fn random_str() -> String {
    rand::thread_rng().sample_iter(&Alphanumeric).take(10).map(char::from).collect()
}

fn failure(code: ErrorCode, description: &str) -> ApiFailure {
    ApiFailure { code, description: description.to_string() }
}

#[test]
fn signup() {
    let mut service = Service::new();
    let token = service
        .signup(&random_str(), &random_str(), &random_str(), &random_str())
        .unwrap();
    let user = service.authorize(Some(&token)).unwrap();
    assert_eq!(
        user.roles,
        Roles {
            ID: user.id,
            Owner: false,
            Owns: None,
            Manager: false,
            Cleaner: false,
            Receptionist: false,
            EmployedIn: None,
        }
    );
}

#[test]
fn signin() {
    let login = random_str();
    let name = random_str();
    let email = random_str();
    let passhash = random_str();
    let mut service = Service::new();
    let person =
        Person { ID: 0, Login: login.clone(), Name: name, Email: email, PassHash: passhash.clone() };
    let statement = Statement { sql: Person::insert_query(), args: person.insert_args() };
    service.store.run(&statement).unwrap();

    let token = service.signin(&login, &passhash).unwrap();
    let id = Authorizer::authorize(&service.tokens, &token).unwrap();
    assert_eq!(token, id.to_string());
}

#[test]
fn signin_with_a_wrong_password_fails() {
    let mut service = Service::new();
    service.signup("alice", "Alice", "a@x.com", "h1").unwrap();
    assert_eq!(
        service.signin("alice", "h2"),
        Err(failure(ErrorCode::SigninError, "Login-password pair not found"))
    );
    assert_eq!(
        service.signin("bob", "h1"),
        Err(failure(ErrorCode::SigninError, "Login-password pair not found"))
    );
}

#[test]
fn signup_twice_with_one_login_fails() {
    let mut service = Service::new();
    service.signup("alice", "Alice", "a@x.com", "h1").unwrap();
    let again = service.signup("alice", "Alice", "a@x.com", "h1").unwrap_err();
    assert_eq!(again.code, ErrorCode::SignupError);
    assert_eq!(again.description, "duplicate key value violates unique constraint");
}

#[test]
fn the_token_of_a_signup_resolves_to_the_identity_of_a_later_signin() {
    let mut service = Service::new();
    service.signup("bob", "Bob", "b@x.com", "h0").unwrap();
    let token = service.signup("alice", "Alice", "a@x.com", "h1").unwrap();
    let resolved = Authorizer::authorize(&service.tokens, &token).unwrap();
    let later = service.signin("alice", "h1").unwrap();
    assert_eq!(Authorizer::authorize(&service.tokens, &later), Ok(resolved));
    assert_eq!(later, token);
    let other = service.signin("bob", "h0").unwrap();
    assert_ne!(other, token);
    assert_eq!(Authorizer::authorize(&service.tokens, &token), Ok(resolved));
}

#[test]
fn an_unknown_token_is_refused() {
    let mut service = Service::new();
    assert_eq!(
        service.authorize(Some("12")).unwrap_err(),
        failure(ErrorCode::NotAuthorizedError, "Token has expired")
    );
    assert_eq!(
        service.authorize(None).unwrap_err(),
        failure(ErrorCode::NotAuthorizedError, "No token found in request")
    );
}

#[test]
fn roles_are_asked_for_once() {
    let (mut service, token) = Service::with_owner();
    let id = service.tokens.get(&token).unwrap();
    service.put_hotel(&token, new_hotel("A", "a")).unwrap();
    let mut service = service.restarted();

    let before = service.store.statements;
    let first = service.get_roles(id);
    let asked = service.store.statements - before;
    // Four roles, and the hotels of an owner.
    assert_eq!(asked, 5);
    assert!(first.Owner);
    assert_eq!(first.Owns.as_ref().map(|h| h.len()), Some(1));
    assert_eq!(first.EmployedIn, None);

    let second = service.get_roles(id);
    assert_eq!(second, first);
    assert_eq!(service.store.statements - before, asked);

    // What is kept is not looked up again, even when the tables change.
    let token = service.signin("owner", "0").unwrap();
    service.put_hotel(&token, new_hotel("B", "b")).unwrap();
    assert_eq!(service.get_roles(id), first);
}

#[test]
fn the_roles_of_an_employee_list_the_hotels_worked_in() {
    let mut service = Service::new();
    let token = service.signup("carol", "Carol", "c@x.com", "h").unwrap();
    let id = service.tokens.get(&token).unwrap();
    service.store.insert("Cleaner", &["PersonID"], &[Value::Int(id)]).unwrap();
    for hotel in [7, 9] {
        service
            .store
            .insert("EmployedIn", &["PersonID", "HotelID"], &[Value::Int(id), Value::Int(hotel)])
            .unwrap();
    }
    let before = service.store.statements;
    let roles = service.get_roles(id);
    assert_eq!(service.store.statements - before, 5);
    assert_eq!(
        roles,
        Roles {
            ID: id,
            Owner: false,
            Owns: None,
            Manager: false,
            Cleaner: true,
            Receptionist: false,
            EmployedIn: Some(vec![7, 9]),
        }
    );
}

#[test]
fn get_account_info() {
    let login = random_str();
    let name = random_str();
    let email = random_str();
    let passhash = random_str();

    let mut service = Service::new();
    let token = service.signup(&login, &name, &email, &passhash).unwrap();
    let info = service.account_info(&token).unwrap();

    assert_eq!(login, info.Login);
    assert_eq!(name, info.Name);
    assert_eq!(email, info.Email);
}

#[test]
fn update_account_info() {
    let login = random_str();
    let name = random_str();
    let email = random_str();
    let passhash = random_str();

    let mut service = Service::new();
    let token = service.signup(&login, &name, &email, &passhash).unwrap();

    let new_name = random_str();
    let new_email = random_str();
    let new_passhash = random_str();

    // Test empty request
    let update =
        UpdateAccountInfoData { NewName: None, NewEmail: None, OldPassHash: None, NewPassHash: None };
    assert_eq!(service.update_account_info(&token, &update), Ok(()));

    // Test updating just name and email
    let update = UpdateAccountInfoData {
        NewName: Some(new_name.clone()),
        NewEmail: Some(new_email.clone()),
        OldPassHash: None,
        NewPassHash: None,
    };
    assert_eq!(service.update_account_info(&token, &update), Ok(()));

    let info = service.account_info(&token).unwrap();
    assert_eq!(info.Name, new_name);
    assert_eq!(info.Email, new_email);

    // Try to update password without old password
    let update = UpdateAccountInfoData {
        NewName: None,
        NewEmail: None,
        OldPassHash: None,
        NewPassHash: Some(new_passhash.clone()),
    };
    assert_eq!(
        service.update_account_info(&token, &update),
        Err(failure(ErrorCode::IncompleteDataError, "Missing OldPassHash"))
    );

    // Try to update password with a wrong old password
    let update = UpdateAccountInfoData {
        NewName: None,
        NewEmail: None,
        OldPassHash: Some(new_passhash.clone()),
        NewPassHash: Some(new_passhash.clone()),
    };
    assert_eq!(
        service.update_account_info(&token, &update),
        Err(failure(ErrorCode::OldPasswordIsInvalidError, "Old password is invalid"))
    );

    // Update password
    let update = UpdateAccountInfoData {
        NewName: None,
        NewEmail: None,
        OldPassHash: Some(passhash.clone()),
        NewPassHash: Some(new_passhash.clone()),
    };
    assert_eq!(service.update_account_info(&token, &update), Ok(()));

    // Try to authorize with new password
    service.signin(&login, &new_passhash).unwrap();
    assert!(service.signin(&login, &passhash).is_err());
}

#[test]
fn get_bookings() {
    let login = random_str();
    let name = random_str();
    let email = random_str();
    let passhash = random_str();

    let mut service = Service::new();
    let token = service.signup(&login, &name, &email, &passhash).unwrap();
    let client = service.authorize(Some(&token)).unwrap();

    let statement = account::get_bookings(client.id, None, None);
    assert_eq!(
        statement.sql,
        "SELECT * FROM Booking WHERE ClientPersonID = $1   LIMIT 2147483647 OFFSET 0;"
    );
    assert_eq!(statement.args, vec![Value::Int(client.id)]);
    assert!(service.store.run(&statement).unwrap().is_empty());

    let statement = account::get_bookings(client.id, Some(3), Some(6));
    assert_eq!(statement.sql, "SELECT * FROM Booking WHERE ClientPersonID = $1   LIMIT 3 OFFSET 6;");
}

#[test]
fn city() {
    let mut service = Service::new();
    let city_name = random_str();
    service.put_city(&city_name);
    service.put_city(&random_str());

    let cities = service.get_cities();
    assert_eq!(cities.into_iter().filter(|city| city.Name == city_name).count(), 1);
}

fn new_hotel(name: &str, desc: &str) -> NewHotel {
    NewHotel { CityID: 3, Name: name.to_string(), Description: desc.to_string(), Stars: Some(5) }
}

fn put(service: &mut Service, token: &str, name: &str, desc: &str) -> Hotel {
    service.put_hotel(token, new_hotel(name, desc)).unwrap();
    service
        .get_hotels(None, None)
        .into_iter()
        .filter(|hotel| {
            hotel.CityID == 3
                && hotel.Name == name
                && hotel.Description == desc
                && hotel.Stars == Some(5)
        })
        .last()
        .expect("No putted hotel in get result")
}

#[test]
fn put_hotel() {
    let (mut service, token) = Service::with_owner();
    let name = random_str();
    let desc = random_str();
    assert!(service.put_hotel(&token, new_hotel(&name, &desc)).is_ok());
}

#[test]
fn put_hotel_is_for_owners_only() {
    let mut service = Service::new();
    let token = service.signup("dave", "Dave", "d@x.com", "h").unwrap();
    assert_eq!(
        service.put_hotel(&token, new_hotel("n", "d")),
        Err(failure(ErrorCode::NotAuthorizedError, "Only owner can add a hotel"))
    );
}

#[test]
fn get_hotels() {
    let (mut service, token) = Service::with_owner();
    let name = random_str();
    let desc = random_str();
    put(&mut service, &token, &name, &desc);
    put(&mut service, &token, &random_str(), &random_str());
    put(&mut service, &token, &random_str(), &random_str());
    assert_eq!(service.get_hotels(None, None).len(), 3);
    assert_eq!(service.get_hotels(Some(2), None).len(), 2);
    assert_eq!(service.get_hotels(None, Some(2)).len(), 1);
    assert_eq!(service.get_hotels(Some(1), Some(0))[0].Name, name);
}

#[test]
fn get_hotel() {
    let (mut service, token) = Service::with_owner();
    let name = random_str();
    let desc = random_str();
    let hotel = put(&mut service, &token, &name, &desc);

    let recv_hotel = service.get_hotel(hotel.ID).unwrap();
    assert_eq!(hotel, recv_hotel);

    assert_eq!(
        service.get_hotel(hotel.ID + 100),
        Err(failure(
            ErrorCode::NotFoundError,
            &format!("No Hotel with id {} found", hotel.ID + 100)
        ))
    );
}

#[test]
fn update_hotel() {
    let (mut service, token) = Service::with_owner();
    let name = random_str();
    let desc = random_str();
    let hotel = put(&mut service, &token, &name, &desc);

    let update = UpdateHotel {
        RuleSetID: Some(5),
        Name: None,
        Description: None,
        PhotoSetID: Some(5),
        Stars: Some(3),
    };

    // The owner's roles were kept before the hotel was there: they do not
    // list it, and are not asked for again while the service runs.
    assert_eq!(
        service.update_hotel(&token, hotel.ID, &update),
        Err(failure(
            ErrorCode::NotAuthorizedError,
            &format!("Not owner or employee of hotel {}", hotel.ID)
        ))
    );

    let mut service = service.restarted();
    let token = service.signin("owner", "0").unwrap();
    assert_eq!(service.update_hotel(&token, hotel.ID, &update), Ok(()));

    let hotel = service.get_hotel(hotel.ID).unwrap();
    assert_eq!(hotel.RuleSetID, 5);
    assert_eq!(hotel.PhotoSetID, Some(5));
    assert_eq!(hotel.Stars, Some(3));
    assert_eq!(hotel.Name, name);
    assert_eq!(hotel.Description, desc);
}

fn count(store: &mut Store, sql: &str, name: &str) -> usize {
    let statement = Statement { sql: sql.to_string(), args: vec![Value::Text(name.to_string())] };
    store.run(&statement).unwrap().len()
}

fn execute(store: &mut Store, sql: &str, name: &str) {
    let statement = Statement { sql: sql.to_string(), args: vec![Value::Text(name.to_string())] };
    store.run(&statement).unwrap();
}

#[test]
fn auto_insert() {
    let mut store = Store::new();
    let name = random_str();

    // Insert city with builder
    execute(&mut store, &City::insert_builder().build(), &name);

    // Check insertion
    let cnt = count(&mut store, "SELECT * FROM City WHERE Name=$1", &name);

    // Cleanup
    execute(&mut store, "DELETE FROM City WHERE Name=$1;", &name);

    assert_eq!(cnt, 1);
    assert_eq!(City::insert_builder().build(), "INSERT INTO City (Name) VALUES ($1);");
}

#[test]
fn auto_select() {
    let mut store = Store::new();
    let name = random_str();

    // Insert city
    execute(&mut store, "INSERT INTO City (Name) VALUES ($1);", &name);

    // Select with builder
    let cnt = count(&mut store, &City::select_builder().filter("Name=$1").build(), &name);

    // Cleanup
    execute(&mut store, "DELETE FROM City WHERE Name=$1;", &name);

    assert_eq!(cnt, 1);
}

#[test]
fn auto_delete() {
    let mut store = Store::new();
    let name = random_str();

    // Insert city
    execute(&mut store, "INSERT INTO City (Name) VALUES ($1);", &name);

    // Delete with builder
    execute(&mut store, &City::delete_builder().filter("Name=$1").build(), &name);

    // Check deletion
    let cnt = count(&mut store, "SELECT * FROM City WHERE Name=$1", &name);

    // Cleanup
    execute(&mut store, "DELETE FROM City WHERE Name=$1;", &name);

    assert_eq!(cnt, 0);
    assert_eq!(
        City::delete_builder().filter("Name=$1").build(),
        "DELETE FROM City WHERE Name=$1;"
    );
}

#[test]
fn auto_update() {
    let mut store = Store::new();
    let name = random_str();
    let new_name = random_str();

    // Insert city
    execute(&mut store, "INSERT INTO City (Name) VALUES ($1);", &name);

    // Update with builder
    let query = City::update_builder().filter(&format!("Name='{}'", name)).set("Name").build();
    println!("query: {:?}", query);
    execute(&mut store, &query, &new_name);

    // Check updation
    let cnt = count(&mut store, "SELECT * FROM City WHERE Name=$1", &new_name);

    // Cleanup
    execute(&mut store, "DELETE FROM City WHERE Name=$1;", &name);
    execute(&mut store, "DELETE FROM City WHERE Name=$1;", &new_name);

    assert_eq!(cnt, 1);
    assert_eq!(query, format!("UPDATE City SET Name=$1 WHERE Name='{}';", name));
}
