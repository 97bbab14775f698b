//! The record types of the schema, each bound to its table.

use super::builder::insert::lemma_insert_sql;
use super::row::{
    copy_bytes, lower, opt_int_model, opt_int_value, opt_text_model, opt_text_value, read,
    readable, values_of, Kind, Row, Timestamp, Value, ValueModel,
};
use super::{
    insert_columns, insert_seed, insert_values, lemma_insert_seed_plain, Deletable,
    DeleteQueryBuilder, Entity, InsertQueryBuilder, Insertable, QueryBuilder, Queryable,
    SelectQueryBuilder, Updatable, UpdateQueryBuilder,
};
use vstd::prelude::*;
use vstd::string::*;

verus! {

/// A person known to the service: a client or an employee.
#[derive(Debug, Clone, PartialEq, Eq)]
pub struct Person {
    pub ID: i32,
    pub Login: String,
    pub Name: String,
    pub Email: String,
    pub PassHash: String,
}

impl Person {
    /// A person that the database has not stored yet.
    pub fn new(Login: String, Name: String, Email: String, PassHash: String) -> (r: Person)
        ensures
            r.ID == -1,
            r.Login == Login,
            r.Name == Name,
            r.Email == Email,
            r.PassHash == PassHash,
    {
        Person { ID: -1, Login, Name, Email, PassHash }
    }
}

impl Entity for Person {
    open spec fn table_name() -> Seq<char> {
        "Person"@
    }

    open spec fn shape() -> Seq<(Seq<char>, Kind)> {
        seq![
            ("ID"@, Kind::Int),
            ("Login"@, Kind::Text),
            ("Name"@, Kind::Text),
            ("Email"@, Kind::Text),
            ("PassHash"@, Kind::Text),
        ]
    }

    open spec fn keyed() -> bool {
        true
    }

    open spec fn cells(&self) -> Seq<(Seq<char>, ValueModel)> {
        seq![
            ("ID"@, ValueModel::Int(self.ID)),
            ("Login"@, ValueModel::Text(self.Login@)),
            ("Name"@, ValueModel::Text(self.Name@)),
            ("Email"@, ValueModel::Text(self.Email@)),
            ("PassHash"@, ValueModel::Text(self.PassHash@)),
        ]
    }

    proof fn lemma_shape() {
        reveal_strlit("Person");
        reveal_strlit("ID");
        reveal_strlit("Login");
        reveal_strlit("Name");
        reveal_strlit("Email");
        reveal_strlit("PassHash");
        let s = Self::shape();
        assert(s[0].0.len() == 2);
        assert(s[1].0.len() == 5);
        assert(s[2].0.len() == 4);
        assert(s[3].0.len() == 5);
        assert(s[4].0.len() == 8);
        assert(lower(s[1].0[0]) != lower(s[3].0[0]));
    }

    proof fn lemma_cells(&self) {
    }

    fn from_row(row: &Row) -> (r: Option<Self>) {
        let ghost s = Self::shape();
        let id = row.integer("ID");
        let login = row.text("Login");
        let name = row.text("Name");
        let email = row.text("Email");
        let pass_hash = row.text("PassHash");
        proof {
            assert(s[0] == ("ID"@, Kind::Int));
            assert(s[1] == ("Login"@, Kind::Text));
            assert(s[2] == ("Name"@, Kind::Text));
            assert(s[3] == ("Email"@, Kind::Text));
            assert(s[4] == ("PassHash"@, Kind::Text));
        }
        match (id, login, name, email, pass_hash) {
            (Some(ID), Some(Login), Some(Name), Some(Email), Some(PassHash)) => {
                let e = Person { ID, Login, Name, Email, PassHash };
                proof {
                    assert(readable(s, row@));
                    assert(read(s, row@)->0 =~= e.cells());
                }
                Some(e)
            },
            _ => {
                assert(!readable(s, row@));
                None
            },
        }
    }
}

impl Queryable for Person {
    fn select_builder() -> (b: SelectQueryBuilder) {
        SelectQueryBuilder::default().from_tables("Person")
    }
}

impl Deletable for Person {
    fn delete_builder() -> (b: DeleteQueryBuilder) {
        DeleteQueryBuilder::default().from_tables("Person")
    }
}

impl Updatable for Person {
    fn update_builder() -> (b: UpdateQueryBuilder) {
        UpdateQueryBuilder::default().table("Person")
    }
}

impl Insertable for Person {
    fn insert_builder() -> (b: InsertQueryBuilder) {
        let b = InsertQueryBuilder::default()
            .table("Person")
            .set("Login")
            .set("Name")
            .set("Email")
            .set("PassHash");
        proof {
            assert(b@.columns =~= insert_columns::<Person>());
        }
        b
    }

    fn insert_query() -> (sql: String) {
        proof {
            lemma_insert_seed_plain::<Self>();
            lemma_insert_sql(insert_seed::<Self>());
        }
        Self::insert_builder().build()
    }

    fn insert_args(&self) -> (args: Vec<Value>) {
        let mut args: Vec<Value> = Vec::new();
        args.push(Value::Text(self.Login.clone()));
        args.push(Value::Text(self.Name.clone()));
        args.push(Value::Text(self.Email.clone()));
        args.push(Value::Text(self.PassHash.clone()));
        proof {
            assert(values_of(args@) =~= insert_values(self));
        }
        args
    }
}

/// The person owns hotels.
#[derive(Debug, Clone, PartialEq, Eq)]
pub struct Owner {
    pub PersonID: i32,
}

impl Owner {
    /// The mark that the person owns hotels.
    pub fn new(PersonID: i32) -> (r: Owner)
        ensures
            r.PersonID == PersonID,
    {
        Owner { PersonID }
    }
}

impl Entity for Owner {
    open spec fn table_name() -> Seq<char> {
        "Owner"@
    }

    open spec fn shape() -> Seq<(Seq<char>, Kind)> {
        seq![("PersonID"@, Kind::Int)]
    }

    open spec fn keyed() -> bool {
        false
    }

    open spec fn cells(&self) -> Seq<(Seq<char>, ValueModel)> {
        seq![("PersonID"@, ValueModel::Int(self.PersonID))]
    }

    proof fn lemma_shape() {
        reveal_strlit("Owner");
        reveal_strlit("PersonID");
        let s = Self::shape();
        assert(s[0].0.len() == 8);
    }

    proof fn lemma_cells(&self) {
    }

    fn from_row(row: &Row) -> (r: Option<Self>) {
        let ghost s = Self::shape();
        let person_id = row.integer("PersonID");
        proof {
            assert(s[0] == ("PersonID"@, Kind::Int));
        }
        match person_id {
            Some(PersonID) => {
                let e = Owner { PersonID };
                proof {
                    assert(readable(s, row@));
                    assert(read(s, row@)->0 =~= e.cells());
                }
                Some(e)
            },
            _ => {
                assert(!readable(s, row@));
                None
            },
        }
    }
}

impl Queryable for Owner {
    fn select_builder() -> (b: SelectQueryBuilder) {
        SelectQueryBuilder::default().from_tables("Owner")
    }
}

impl Deletable for Owner {
    fn delete_builder() -> (b: DeleteQueryBuilder) {
        DeleteQueryBuilder::default().from_tables("Owner")
    }
}

impl Updatable for Owner {
    fn update_builder() -> (b: UpdateQueryBuilder) {
        UpdateQueryBuilder::default().table("Owner")
    }
}

impl Insertable for Owner {
    fn insert_builder() -> (b: InsertQueryBuilder) {
        let b = InsertQueryBuilder::default().table("Owner").set("PersonID");
        proof {
            assert(b@.columns =~= insert_columns::<Owner>());
        }
        b
    }

    fn insert_query() -> (sql: String) {
        proof {
            lemma_insert_seed_plain::<Self>();
            lemma_insert_sql(insert_seed::<Self>());
        }
        Self::insert_builder().build()
    }

    fn insert_args(&self) -> (args: Vec<Value>) {
        let mut args: Vec<Value> = Vec::new();
        args.push(Value::Int(self.PersonID));
        proof {
            assert(values_of(args@) =~= insert_values(self));
        }
        args
    }
}

/// The person manages hotels.
#[derive(Debug, Clone, PartialEq, Eq)]
pub struct Manager {
    pub PersonID: i32,
}

impl Manager {
    /// The mark that the person manages hotels.
    pub fn new(PersonID: i32) -> (r: Manager)
        ensures
            r.PersonID == PersonID,
    {
        Manager { PersonID }
    }
}

impl Entity for Manager {
    open spec fn table_name() -> Seq<char> {
        "Manager"@
    }

    open spec fn shape() -> Seq<(Seq<char>, Kind)> {
        seq![("PersonID"@, Kind::Int)]
    }

    open spec fn keyed() -> bool {
        false
    }

    open spec fn cells(&self) -> Seq<(Seq<char>, ValueModel)> {
        seq![("PersonID"@, ValueModel::Int(self.PersonID))]
    }

    proof fn lemma_shape() {
        reveal_strlit("Manager");
        reveal_strlit("PersonID");
        let s = Self::shape();
        assert(s[0].0.len() == 8);
    }

    proof fn lemma_cells(&self) {
    }

    fn from_row(row: &Row) -> (r: Option<Self>) {
        let ghost s = Self::shape();
        let person_id = row.integer("PersonID");
        proof {
            assert(s[0] == ("PersonID"@, Kind::Int));
        }
        match person_id {
            Some(PersonID) => {
                let e = Manager { PersonID };
                proof {
                    assert(readable(s, row@));
                    assert(read(s, row@)->0 =~= e.cells());
                }
                Some(e)
            },
            _ => {
                assert(!readable(s, row@));
                None
            },
        }
    }
}

impl Queryable for Manager {
    fn select_builder() -> (b: SelectQueryBuilder) {
        SelectQueryBuilder::default().from_tables("Manager")
    }
}

impl Deletable for Manager {
    fn delete_builder() -> (b: DeleteQueryBuilder) {
        DeleteQueryBuilder::default().from_tables("Manager")
    }
}

impl Updatable for Manager {
    fn update_builder() -> (b: UpdateQueryBuilder) {
        UpdateQueryBuilder::default().table("Manager")
    }
}

impl Insertable for Manager {
    fn insert_builder() -> (b: InsertQueryBuilder) {
        let b = InsertQueryBuilder::default().table("Manager").set("PersonID");
        proof {
            assert(b@.columns =~= insert_columns::<Manager>());
        }
        b
    }

    fn insert_query() -> (sql: String) {
        proof {
            lemma_insert_seed_plain::<Self>();
            lemma_insert_sql(insert_seed::<Self>());
        }
        Self::insert_builder().build()
    }

    fn insert_args(&self) -> (args: Vec<Value>) {
        let mut args: Vec<Value> = Vec::new();
        args.push(Value::Int(self.PersonID));
        proof {
            assert(values_of(args@) =~= insert_values(self));
        }
        args
    }
}

/// The person works at a reception.
#[derive(Debug, Clone, PartialEq, Eq)]
pub struct Receptionist {
    pub PersonID: i32,
}

impl Receptionist {
    /// The mark that the person works at a reception.
    pub fn new(PersonID: i32) -> (r: Receptionist)
        ensures
            r.PersonID == PersonID,
    {
        Receptionist { PersonID }
    }
}

impl Entity for Receptionist {
    open spec fn table_name() -> Seq<char> {
        "Receptionist"@
    }

    open spec fn shape() -> Seq<(Seq<char>, Kind)> {
        seq![("PersonID"@, Kind::Int)]
    }

    open spec fn keyed() -> bool {
        false
    }

    open spec fn cells(&self) -> Seq<(Seq<char>, ValueModel)> {
        seq![("PersonID"@, ValueModel::Int(self.PersonID))]
    }

    proof fn lemma_shape() {
        reveal_strlit("Receptionist");
        reveal_strlit("PersonID");
        let s = Self::shape();
        assert(s[0].0.len() == 8);
    }

    proof fn lemma_cells(&self) {
    }

    fn from_row(row: &Row) -> (r: Option<Self>) {
        let ghost s = Self::shape();
        let person_id = row.integer("PersonID");
        proof {
            assert(s[0] == ("PersonID"@, Kind::Int));
        }
        match person_id {
            Some(PersonID) => {
                let e = Receptionist { PersonID };
                proof {
                    assert(readable(s, row@));
                    assert(read(s, row@)->0 =~= e.cells());
                }
                Some(e)
            },
            _ => {
                assert(!readable(s, row@));
                None
            },
        }
    }
}

impl Queryable for Receptionist {
    fn select_builder() -> (b: SelectQueryBuilder) {
        SelectQueryBuilder::default().from_tables("Receptionist")
    }
}

impl Deletable for Receptionist {
    fn delete_builder() -> (b: DeleteQueryBuilder) {
        DeleteQueryBuilder::default().from_tables("Receptionist")
    }
}

impl Updatable for Receptionist {
    fn update_builder() -> (b: UpdateQueryBuilder) {
        UpdateQueryBuilder::default().table("Receptionist")
    }
}

impl Insertable for Receptionist {
    fn insert_builder() -> (b: InsertQueryBuilder) {
        let b = InsertQueryBuilder::default().table("Receptionist").set("PersonID");
        proof {
            assert(b@.columns =~= insert_columns::<Receptionist>());
        }
        b
    }

    fn insert_query() -> (sql: String) {
        proof {
            lemma_insert_seed_plain::<Self>();
            lemma_insert_sql(insert_seed::<Self>());
        }
        Self::insert_builder().build()
    }

    fn insert_args(&self) -> (args: Vec<Value>) {
        let mut args: Vec<Value> = Vec::new();
        args.push(Value::Int(self.PersonID));
        proof {
            assert(values_of(args@) =~= insert_values(self));
        }
        args
    }
}

/// The person cleans rooms.
#[derive(Debug, Clone, PartialEq, Eq)]
pub struct Cleaner {
    pub PersonID: i32,
}

impl Cleaner {
    /// The mark that the person cleans rooms.
    pub fn new(PersonID: i32) -> (r: Cleaner)
        ensures
            r.PersonID == PersonID,
    {
        Cleaner { PersonID }
    }
}

impl Entity for Cleaner {
    open spec fn table_name() -> Seq<char> {
        "Cleaner"@
    }

    open spec fn shape() -> Seq<(Seq<char>, Kind)> {
        seq![("PersonID"@, Kind::Int)]
    }

    open spec fn keyed() -> bool {
        false
    }

    open spec fn cells(&self) -> Seq<(Seq<char>, ValueModel)> {
        seq![("PersonID"@, ValueModel::Int(self.PersonID))]
    }

    proof fn lemma_shape() {
        reveal_strlit("Cleaner");
        reveal_strlit("PersonID");
        let s = Self::shape();
        assert(s[0].0.len() == 8);
    }

    proof fn lemma_cells(&self) {
    }

    fn from_row(row: &Row) -> (r: Option<Self>) {
        let ghost s = Self::shape();
        let person_id = row.integer("PersonID");
        proof {
            assert(s[0] == ("PersonID"@, Kind::Int));
        }
        match person_id {
            Some(PersonID) => {
                let e = Cleaner { PersonID };
                proof {
                    assert(readable(s, row@));
                    assert(read(s, row@)->0 =~= e.cells());
                }
                Some(e)
            },
            _ => {
                assert(!readable(s, row@));
                None
            },
        }
    }
}

impl Queryable for Cleaner {
    fn select_builder() -> (b: SelectQueryBuilder) {
        SelectQueryBuilder::default().from_tables("Cleaner")
    }
}

impl Deletable for Cleaner {
    fn delete_builder() -> (b: DeleteQueryBuilder) {
        DeleteQueryBuilder::default().from_tables("Cleaner")
    }
}

impl Updatable for Cleaner {
    fn update_builder() -> (b: UpdateQueryBuilder) {
        UpdateQueryBuilder::default().table("Cleaner")
    }
}

impl Insertable for Cleaner {
    fn insert_builder() -> (b: InsertQueryBuilder) {
        let b = InsertQueryBuilder::default().table("Cleaner").set("PersonID");
        proof {
            assert(b@.columns =~= insert_columns::<Cleaner>());
        }
        b
    }

    fn insert_query() -> (sql: String) {
        proof {
            lemma_insert_seed_plain::<Self>();
            lemma_insert_sql(insert_seed::<Self>());
        }
        Self::insert_builder().build()
    }

    fn insert_args(&self) -> (args: Vec<Value>) {
        let mut args: Vec<Value> = Vec::new();
        args.push(Value::Int(self.PersonID));
        proof {
            assert(values_of(args@) =~= insert_values(self));
        }
        args
    }
}

/// A set of pricing rules, written by a manager or the default one.
#[derive(Debug, Clone, PartialEq, Eq)]
pub struct RuleSet {
    pub ID: i32,
    pub ManagerPersonID: Option<i32>,
    pub Name: String,
    pub Body: String,
    pub IsDefault: bool,
}

impl RuleSet {
    /// A rule set that the database has not stored yet.
    pub fn new(
        ManagerPersonID: Option<i32>,
        Name: String,
        Body: String,
        IsDefault: bool,
    ) -> (r: RuleSet)
        ensures
            r.ID == -1,
            r.ManagerPersonID == ManagerPersonID,
            r.Name == Name,
            r.Body == Body,
            r.IsDefault == IsDefault,
    {
        RuleSet { ID: -1, ManagerPersonID, Name, Body, IsDefault }
    }
}

impl Entity for RuleSet {
    open spec fn table_name() -> Seq<char> {
        "RuleSet"@
    }

    open spec fn shape() -> Seq<(Seq<char>, Kind)> {
        seq![
            ("ID"@, Kind::Int),
            ("ManagerPersonID"@, Kind::OptInt),
            ("Name"@, Kind::Text),
            ("Body"@, Kind::Text),
            ("IsDefault"@, Kind::Bool),
        ]
    }

    open spec fn keyed() -> bool {
        true
    }

    open spec fn cells(&self) -> Seq<(Seq<char>, ValueModel)> {
        seq![
            ("ID"@, ValueModel::Int(self.ID)),
            ("ManagerPersonID"@, opt_int_model(self.ManagerPersonID)),
            ("Name"@, ValueModel::Text(self.Name@)),
            ("Body"@, ValueModel::Text(self.Body@)),
            ("IsDefault"@, ValueModel::Bool(self.IsDefault)),
        ]
    }

    proof fn lemma_shape() {
        reveal_strlit("RuleSet");
        reveal_strlit("ID");
        reveal_strlit("ManagerPersonID");
        reveal_strlit("Name");
        reveal_strlit("Body");
        reveal_strlit("IsDefault");
        let s = Self::shape();
        assert(s[0].0.len() == 2);
        assert(s[1].0.len() == 15);
        assert(s[2].0.len() == 4);
        assert(s[3].0.len() == 4);
        assert(s[4].0.len() == 9);
        assert(lower(s[2].0[0]) != lower(s[3].0[0]));
    }

    proof fn lemma_cells(&self) {
    }

    fn from_row(row: &Row) -> (r: Option<Self>) {
        let ghost s = Self::shape();
        let id = row.integer("ID");
        let manager_person_id = row.opt_integer("ManagerPersonID");
        let name = row.text("Name");
        let body = row.text("Body");
        let is_default = row.boolean("IsDefault");
        proof {
            assert(s[0] == ("ID"@, Kind::Int));
            assert(s[1] == ("ManagerPersonID"@, Kind::OptInt));
            assert(s[2] == ("Name"@, Kind::Text));
            assert(s[3] == ("Body"@, Kind::Text));
            assert(s[4] == ("IsDefault"@, Kind::Bool));
        }
        match (id, manager_person_id, name, body, is_default) {
            (Some(ID), Some(ManagerPersonID), Some(Name), Some(Body), Some(IsDefault)) => {
                let e = RuleSet { ID, ManagerPersonID, Name, Body, IsDefault };
                proof {
                    assert(readable(s, row@));
                    assert(read(s, row@)->0 =~= e.cells());
                }
                Some(e)
            },
            _ => {
                assert(!readable(s, row@));
                None
            },
        }
    }
}

impl Queryable for RuleSet {
    fn select_builder() -> (b: SelectQueryBuilder) {
        SelectQueryBuilder::default().from_tables("RuleSet")
    }
}

impl Deletable for RuleSet {
    fn delete_builder() -> (b: DeleteQueryBuilder) {
        DeleteQueryBuilder::default().from_tables("RuleSet")
    }
}

impl Updatable for RuleSet {
    fn update_builder() -> (b: UpdateQueryBuilder) {
        UpdateQueryBuilder::default().table("RuleSet")
    }
}

impl Insertable for RuleSet {
    fn insert_builder() -> (b: InsertQueryBuilder) {
        let b = InsertQueryBuilder::default()
            .table("RuleSet")
            .set("ManagerPersonID")
            .set("Name")
            .set("Body")
            .set("IsDefault");
        proof {
            assert(b@.columns =~= insert_columns::<RuleSet>());
        }
        b
    }

    fn insert_query() -> (sql: String) {
        proof {
            lemma_insert_seed_plain::<Self>();
            lemma_insert_sql(insert_seed::<Self>());
        }
        Self::insert_builder().build()
    }

    fn insert_args(&self) -> (args: Vec<Value>) {
        let mut args: Vec<Value> = Vec::new();
        args.push(opt_int_value(self.ManagerPersonID));
        args.push(Value::Text(self.Name.clone()));
        args.push(Value::Text(self.Body.clone()));
        args.push(Value::Bool(self.IsDefault));
        proof {
            assert(values_of(args@) =~= insert_values(self));
        }
        args
    }
}

/// A level of rooms in a rule set, with its price per night.
#[derive(Debug, Clone, PartialEq, Eq)]
pub struct RoomLevel {
    pub Level: i32,
    pub RuleSetID: i32,
    pub LevelName: Option<String>,
    pub PerNight: i32,
}

impl RoomLevel {
    /// A room level of a rule set.
    pub fn new(
        Level: i32,
        RuleSetID: i32,
        LevelName: Option<String>,
        PerNight: i32,
    ) -> (r: RoomLevel)
        ensures
            r.Level == Level,
            r.RuleSetID == RuleSetID,
            r.LevelName == LevelName,
            r.PerNight == PerNight,
    {
        RoomLevel { Level, RuleSetID, LevelName, PerNight }
    }
}

impl Entity for RoomLevel {
    open spec fn table_name() -> Seq<char> {
        "RoomLevel"@
    }

    open spec fn shape() -> Seq<(Seq<char>, Kind)> {
        seq![
            ("Level"@, Kind::Int),
            ("RuleSetID"@, Kind::Int),
            ("LevelName"@, Kind::OptText),
            ("PerNight"@, Kind::Int),
        ]
    }

    open spec fn keyed() -> bool {
        false
    }

    open spec fn cells(&self) -> Seq<(Seq<char>, ValueModel)> {
        seq![
            ("Level"@, ValueModel::Int(self.Level)),
            ("RuleSetID"@, ValueModel::Int(self.RuleSetID)),
            ("LevelName"@, opt_text_model(self.LevelName)),
            ("PerNight"@, ValueModel::Int(self.PerNight)),
        ]
    }

    proof fn lemma_shape() {
        reveal_strlit("RoomLevel");
        reveal_strlit("Level");
        reveal_strlit("RuleSetID");
        reveal_strlit("LevelName");
        reveal_strlit("PerNight");
        let s = Self::shape();
        assert(s[0].0.len() == 5);
        assert(s[1].0.len() == 9);
        assert(s[2].0.len() == 9);
        assert(s[3].0.len() == 8);
        assert(lower(s[1].0[0]) != lower(s[2].0[0]));
    }

    proof fn lemma_cells(&self) {
    }

    fn from_row(row: &Row) -> (r: Option<Self>) {
        let ghost s = Self::shape();
        let level = row.integer("Level");
        let rule_set_id = row.integer("RuleSetID");
        let level_name = row.opt_text("LevelName");
        let per_night = row.integer("PerNight");
        proof {
            assert(s[0] == ("Level"@, Kind::Int));
            assert(s[1] == ("RuleSetID"@, Kind::Int));
            assert(s[2] == ("LevelName"@, Kind::OptText));
            assert(s[3] == ("PerNight"@, Kind::Int));
        }
        match (level, rule_set_id, level_name, per_night) {
            (Some(Level), Some(RuleSetID), Some(LevelName), Some(PerNight)) => {
                let e = RoomLevel { Level, RuleSetID, LevelName, PerNight };
                proof {
                    assert(readable(s, row@));
                    assert(read(s, row@)->0 =~= e.cells());
                }
                Some(e)
            },
            _ => {
                assert(!readable(s, row@));
                None
            },
        }
    }
}

impl Queryable for RoomLevel {
    fn select_builder() -> (b: SelectQueryBuilder) {
        SelectQueryBuilder::default().from_tables("RoomLevel")
    }
}

impl Deletable for RoomLevel {
    fn delete_builder() -> (b: DeleteQueryBuilder) {
        DeleteQueryBuilder::default().from_tables("RoomLevel")
    }
}

impl Updatable for RoomLevel {
    fn update_builder() -> (b: UpdateQueryBuilder) {
        UpdateQueryBuilder::default().table("RoomLevel")
    }
}

impl Insertable for RoomLevel {
    fn insert_builder() -> (b: InsertQueryBuilder) {
        let b = InsertQueryBuilder::default()
            .table("RoomLevel")
            .set("Level")
            .set("RuleSetID")
            .set("LevelName")
            .set("PerNight");
        proof {
            assert(b@.columns =~= insert_columns::<RoomLevel>());
        }
        b
    }

    fn insert_query() -> (sql: String) {
        proof {
            lemma_insert_seed_plain::<Self>();
            lemma_insert_sql(insert_seed::<Self>());
        }
        Self::insert_builder().build()
    }

    fn insert_args(&self) -> (args: Vec<Value>) {
        let mut args: Vec<Value> = Vec::new();
        args.push(Value::Int(self.Level));
        args.push(Value::Int(self.RuleSetID));
        args.push(opt_text_value(&self.LevelName));
        args.push(Value::Int(self.PerNight));
        proof {
            assert(values_of(args@) =~= insert_values(self));
        }
        args
    }
}

/// A level of clients in a rule set, with its discount.
#[derive(Debug, Clone, PartialEq, Eq)]
pub struct ClientLevel {
    pub BookingsAmount: i32,
    pub RuleSetID: i32,
    pub LevelName: Option<String>,
    pub DiscountPercentage: i32,
}

impl ClientLevel {
    /// A client level of a rule set.
    pub fn new(
        BookingsAmount: i32,
        RuleSetID: i32,
        LevelName: Option<String>,
        DiscountPercentage: i32,
    ) -> (r: ClientLevel)
        ensures
            r.BookingsAmount == BookingsAmount,
            r.RuleSetID == RuleSetID,
            r.LevelName == LevelName,
            r.DiscountPercentage == DiscountPercentage,
    {
        ClientLevel { BookingsAmount, RuleSetID, LevelName, DiscountPercentage }
    }
}

impl Entity for ClientLevel {
    open spec fn table_name() -> Seq<char> {
        "ClientLevel"@
    }

    open spec fn shape() -> Seq<(Seq<char>, Kind)> {
        seq![
            ("BookingsAmount"@, Kind::Int),
            ("RuleSetID"@, Kind::Int),
            ("LevelName"@, Kind::OptText),
            ("DiscountPercentage"@, Kind::Int),
        ]
    }

    open spec fn keyed() -> bool {
        false
    }

    open spec fn cells(&self) -> Seq<(Seq<char>, ValueModel)> {
        seq![
            ("BookingsAmount"@, ValueModel::Int(self.BookingsAmount)),
            ("RuleSetID"@, ValueModel::Int(self.RuleSetID)),
            ("LevelName"@, opt_text_model(self.LevelName)),
            ("DiscountPercentage"@, ValueModel::Int(self.DiscountPercentage)),
        ]
    }

    proof fn lemma_shape() {
        reveal_strlit("ClientLevel");
        reveal_strlit("BookingsAmount");
        reveal_strlit("RuleSetID");
        reveal_strlit("LevelName");
        reveal_strlit("DiscountPercentage");
        let s = Self::shape();
        assert(s[0].0.len() == 14);
        assert(s[1].0.len() == 9);
        assert(s[2].0.len() == 9);
        assert(s[3].0.len() == 18);
        assert(lower(s[1].0[0]) != lower(s[2].0[0]));
    }

    proof fn lemma_cells(&self) {
    }

    fn from_row(row: &Row) -> (r: Option<Self>) {
        let ghost s = Self::shape();
        let bookings_amount = row.integer("BookingsAmount");
        let rule_set_id = row.integer("RuleSetID");
        let level_name = row.opt_text("LevelName");
        let discount_percentage = row.integer("DiscountPercentage");
        proof {
            assert(s[0] == ("BookingsAmount"@, Kind::Int));
            assert(s[1] == ("RuleSetID"@, Kind::Int));
            assert(s[2] == ("LevelName"@, Kind::OptText));
            assert(s[3] == ("DiscountPercentage"@, Kind::Int));
        }
        match (bookings_amount, rule_set_id, level_name, discount_percentage) {
            (Some(BookingsAmount), Some(RuleSetID), Some(LevelName), Some(DiscountPercentage)) => {
                let e = ClientLevel { BookingsAmount, RuleSetID, LevelName, DiscountPercentage };
                proof {
                    assert(readable(s, row@));
                    assert(read(s, row@)->0 =~= e.cells());
                }
                Some(e)
            },
            _ => {
                assert(!readable(s, row@));
                None
            },
        }
    }
}

impl Queryable for ClientLevel {
    fn select_builder() -> (b: SelectQueryBuilder) {
        SelectQueryBuilder::default().from_tables("ClientLevel")
    }
}

impl Deletable for ClientLevel {
    fn delete_builder() -> (b: DeleteQueryBuilder) {
        DeleteQueryBuilder::default().from_tables("ClientLevel")
    }
}

impl Updatable for ClientLevel {
    fn update_builder() -> (b: UpdateQueryBuilder) {
        UpdateQueryBuilder::default().table("ClientLevel")
    }
}

impl Insertable for ClientLevel {
    fn insert_builder() -> (b: InsertQueryBuilder) {
        let b = InsertQueryBuilder::default()
            .table("ClientLevel")
            .set("BookingsAmount")
            .set("RuleSetID")
            .set("LevelName")
            .set("DiscountPercentage");
        proof {
            assert(b@.columns =~= insert_columns::<ClientLevel>());
        }
        b
    }

    fn insert_query() -> (sql: String) {
        proof {
            lemma_insert_seed_plain::<Self>();
            lemma_insert_sql(insert_seed::<Self>());
        }
        Self::insert_builder().build()
    }

    fn insert_args(&self) -> (args: Vec<Value>) {
        let mut args: Vec<Value> = Vec::new();
        args.push(Value::Int(self.BookingsAmount));
        args.push(Value::Int(self.RuleSetID));
        args.push(opt_text_value(&self.LevelName));
        args.push(Value::Int(self.DiscountPercentage));
        proof {
            assert(values_of(args@) =~= insert_values(self));
        }
        args
    }
}

/// A client's review of a stay.
#[derive(Debug, Clone, PartialEq, Eq)]
pub struct Review {
    pub ID: i32,
    pub BookingID: i32,
    pub Body: String,
    pub LocationRate: i32,
    pub CleanlinessRate: i32,
    pub ServiceRate: i32,
    pub ValueForMoneyRate: i32,
    pub CreatedAt: Timestamp,
}

impl Review {
    /// A review that the database has not stored yet.
    pub fn new(
        BookingID: i32,
        Body: String,
        LocationRate: i32,
        CleanlinessRate: i32,
        ServiceRate: i32,
        ValueForMoneyRate: i32,
        CreatedAt: Timestamp,
    ) -> (r: Review)
        ensures
            r.ID == -1,
            r.BookingID == BookingID,
            r.Body == Body,
            r.LocationRate == LocationRate,
            r.CleanlinessRate == CleanlinessRate,
            r.ServiceRate == ServiceRate,
            r.ValueForMoneyRate == ValueForMoneyRate,
            r.CreatedAt == CreatedAt,
    {
        Review {
            ID: -1,
            BookingID,
            Body,
            LocationRate,
            CleanlinessRate,
            ServiceRate,
            ValueForMoneyRate,
            CreatedAt,
        }
    }
}

impl Entity for Review {
    open spec fn table_name() -> Seq<char> {
        "Review"@
    }

    open spec fn shape() -> Seq<(Seq<char>, Kind)> {
        seq![
            ("ID"@, Kind::Int),
            ("BookingID"@, Kind::Int),
            ("Body"@, Kind::Text),
            ("LocationRate"@, Kind::Int),
            ("CleanlinessRate"@, Kind::Int),
            ("ServiceRate"@, Kind::Int),
            ("ValueForMoneyRate"@, Kind::Int),
            ("CreatedAt"@, Kind::Time),
        ]
    }

    open spec fn keyed() -> bool {
        true
    }

    open spec fn cells(&self) -> Seq<(Seq<char>, ValueModel)> {
        seq![
            ("ID"@, ValueModel::Int(self.ID)),
            ("BookingID"@, ValueModel::Int(self.BookingID)),
            ("Body"@, ValueModel::Text(self.Body@)),
            ("LocationRate"@, ValueModel::Int(self.LocationRate)),
            ("CleanlinessRate"@, ValueModel::Int(self.CleanlinessRate)),
            ("ServiceRate"@, ValueModel::Int(self.ServiceRate)),
            ("ValueForMoneyRate"@, ValueModel::Int(self.ValueForMoneyRate)),
            ("CreatedAt"@, ValueModel::Time(self.CreatedAt)),
        ]
    }

    proof fn lemma_shape() {
        reveal_strlit("Review");
        reveal_strlit("ID");
        reveal_strlit("BookingID");
        reveal_strlit("Body");
        reveal_strlit("LocationRate");
        reveal_strlit("CleanlinessRate");
        reveal_strlit("ServiceRate");
        reveal_strlit("ValueForMoneyRate");
        reveal_strlit("CreatedAt");
        let s = Self::shape();
        assert(s[0].0.len() == 2);
        assert(s[1].0.len() == 9);
        assert(s[2].0.len() == 4);
        assert(s[3].0.len() == 12);
        assert(s[4].0.len() == 15);
        assert(s[5].0.len() == 11);
        assert(s[6].0.len() == 17);
        assert(s[7].0.len() == 9);
        assert(lower(s[1].0[0]) != lower(s[7].0[0]));
    }

    proof fn lemma_cells(&self) {
    }

    fn from_row(row: &Row) -> (r: Option<Self>) {
        let ghost s = Self::shape();
        let id = row.integer("ID");
        let booking_id = row.integer("BookingID");
        let body = row.text("Body");
        let location_rate = row.integer("LocationRate");
        let cleanliness_rate = row.integer("CleanlinessRate");
        let service_rate = row.integer("ServiceRate");
        let value_for_money_rate = row.integer("ValueForMoneyRate");
        let created_at = row.time("CreatedAt");
        proof {
            assert(s[0] == ("ID"@, Kind::Int));
            assert(s[1] == ("BookingID"@, Kind::Int));
            assert(s[2] == ("Body"@, Kind::Text));
            assert(s[3] == ("LocationRate"@, Kind::Int));
            assert(s[4] == ("CleanlinessRate"@, Kind::Int));
            assert(s[5] == ("ServiceRate"@, Kind::Int));
            assert(s[6] == ("ValueForMoneyRate"@, Kind::Int));
            assert(s[7] == ("CreatedAt"@, Kind::Time));
        }
        match (
            id,
            booking_id,
            body,
            location_rate,
            cleanliness_rate,
            service_rate,
            value_for_money_rate,
            created_at,
        ) {
            (
                Some(ID),
                Some(BookingID),
                Some(Body),
                Some(LocationRate),
                Some(CleanlinessRate),
                Some(ServiceRate),
                Some(ValueForMoneyRate),
                Some(CreatedAt),
            ) => {
                let e = Review {
                    ID,
                    BookingID,
                    Body,
                    LocationRate,
                    CleanlinessRate,
                    ServiceRate,
                    ValueForMoneyRate,
                    CreatedAt,
                };
                proof {
                    assert(readable(s, row@));
                    assert(read(s, row@)->0 =~= e.cells());
                }
                Some(e)
            },
            _ => {
                assert(!readable(s, row@));
                None
            },
        }
    }
}

impl Queryable for Review {
    fn select_builder() -> (b: SelectQueryBuilder) {
        SelectQueryBuilder::default().from_tables("Review")
    }
}

impl Deletable for Review {
    fn delete_builder() -> (b: DeleteQueryBuilder) {
        DeleteQueryBuilder::default().from_tables("Review")
    }
}

impl Updatable for Review {
    fn update_builder() -> (b: UpdateQueryBuilder) {
        UpdateQueryBuilder::default().table("Review")
    }
}

impl Insertable for Review {
    fn insert_builder() -> (b: InsertQueryBuilder) {
        let b = InsertQueryBuilder::default()
            .table("Review")
            .set("BookingID")
            .set("Body")
            .set("LocationRate")
            .set("CleanlinessRate")
            .set("ServiceRate")
            .set("ValueForMoneyRate")
            .set("CreatedAt");
        proof {
            assert(b@.columns =~= insert_columns::<Review>());
        }
        b
    }

    fn insert_query() -> (sql: String) {
        proof {
            lemma_insert_seed_plain::<Self>();
            lemma_insert_sql(insert_seed::<Self>());
        }
        Self::insert_builder().build()
    }

    fn insert_args(&self) -> (args: Vec<Value>) {
        let mut args: Vec<Value> = Vec::new();
        args.push(Value::Int(self.BookingID));
        args.push(Value::Text(self.Body.clone()));
        args.push(Value::Int(self.LocationRate));
        args.push(Value::Int(self.CleanlinessRate));
        args.push(Value::Int(self.ServiceRate));
        args.push(Value::Int(self.ValueForMoneyRate));
        args.push(Value::Time(self.CreatedAt));
        proof {
            assert(values_of(args@) =~= insert_values(self));
        }
        args
    }
}

/// The person books rooms, at a client level.
#[derive(Debug, Clone, PartialEq, Eq)]
pub struct Client {
    pub PersonID: i32,
    pub ClientLevelID: i32,
}

impl Client {
    /// The mark that the person is a client of a level.
    pub fn new(PersonID: i32, ClientLevelID: i32) -> (r: Client)
        ensures
            r.PersonID == PersonID,
            r.ClientLevelID == ClientLevelID,
    {
        Client { PersonID, ClientLevelID }
    }
}

impl Entity for Client {
    open spec fn table_name() -> Seq<char> {
        "Client"@
    }

    open spec fn shape() -> Seq<(Seq<char>, Kind)> {
        seq![("PersonID"@, Kind::Int), ("ClientLevelID"@, Kind::Int)]
    }

    open spec fn keyed() -> bool {
        false
    }

    open spec fn cells(&self) -> Seq<(Seq<char>, ValueModel)> {
        seq![
            ("PersonID"@, ValueModel::Int(self.PersonID)),
            ("ClientLevelID"@, ValueModel::Int(self.ClientLevelID)),
        ]
    }

    proof fn lemma_shape() {
        reveal_strlit("Client");
        reveal_strlit("PersonID");
        reveal_strlit("ClientLevelID");
        let s = Self::shape();
        assert(s[0].0.len() == 8);
        assert(s[1].0.len() == 13);
    }

    proof fn lemma_cells(&self) {
    }

    fn from_row(row: &Row) -> (r: Option<Self>) {
        let ghost s = Self::shape();
        let person_id = row.integer("PersonID");
        let client_level_id = row.integer("ClientLevelID");
        proof {
            assert(s[0] == ("PersonID"@, Kind::Int));
            assert(s[1] == ("ClientLevelID"@, Kind::Int));
        }
        match (person_id, client_level_id) {
            (Some(PersonID), Some(ClientLevelID)) => {
                let e = Client { PersonID, ClientLevelID };
                proof {
                    assert(readable(s, row@));
                    assert(read(s, row@)->0 =~= e.cells());
                }
                Some(e)
            },
            _ => {
                assert(!readable(s, row@));
                None
            },
        }
    }
}

impl Queryable for Client {
    fn select_builder() -> (b: SelectQueryBuilder) {
        SelectQueryBuilder::default().from_tables("Client")
    }
}

impl Deletable for Client {
    fn delete_builder() -> (b: DeleteQueryBuilder) {
        DeleteQueryBuilder::default().from_tables("Client")
    }
}

impl Updatable for Client {
    fn update_builder() -> (b: UpdateQueryBuilder) {
        UpdateQueryBuilder::default().table("Client")
    }
}

impl Insertable for Client {
    fn insert_builder() -> (b: InsertQueryBuilder) {
        let b = InsertQueryBuilder::default().table("Client").set("PersonID").set("ClientLevelID");
        proof {
            assert(b@.columns =~= insert_columns::<Client>());
        }
        b
    }

    fn insert_query() -> (sql: String) {
        proof {
            lemma_insert_seed_plain::<Self>();
            lemma_insert_sql(insert_seed::<Self>());
        }
        Self::insert_builder().build()
    }

    fn insert_args(&self) -> (args: Vec<Value>) {
        let mut args: Vec<Value> = Vec::new();
        args.push(Value::Int(self.PersonID));
        args.push(Value::Int(self.ClientLevelID));
        proof {
            assert(values_of(args@) =~= insert_values(self));
        }
        args
    }
}

/// A set of photos.
#[derive(Debug, Clone, PartialEq, Eq)]
pub struct PhotoSet {
    pub ID: i32,
}

impl PhotoSet {
    /// A photo set that the database has not stored yet.
    pub fn new() -> (r: PhotoSet)
        ensures
            r.ID == -1,
    {
        PhotoSet { ID: -1 }
    }
}

impl Entity for PhotoSet {
    open spec fn table_name() -> Seq<char> {
        "PhotoSet"@
    }

    open spec fn shape() -> Seq<(Seq<char>, Kind)> {
        seq![("ID"@, Kind::Int)]
    }

    open spec fn keyed() -> bool {
        true
    }

    open spec fn cells(&self) -> Seq<(Seq<char>, ValueModel)> {
        seq![("ID"@, ValueModel::Int(self.ID))]
    }

    proof fn lemma_shape() {
        reveal_strlit("PhotoSet");
        reveal_strlit("ID");
        let s = Self::shape();
        assert(s[0].0.len() == 2);
    }

    proof fn lemma_cells(&self) {
    }

    fn from_row(row: &Row) -> (r: Option<Self>) {
        let ghost s = Self::shape();
        let id = row.integer("ID");
        proof {
            assert(s[0] == ("ID"@, Kind::Int));
        }
        match id {
            Some(ID) => {
                let e = PhotoSet { ID };
                proof {
                    assert(readable(s, row@));
                    assert(read(s, row@)->0 =~= e.cells());
                }
                Some(e)
            },
            _ => {
                assert(!readable(s, row@));
                None
            },
        }
    }
}

impl Queryable for PhotoSet {
    fn select_builder() -> (b: SelectQueryBuilder) {
        SelectQueryBuilder::default().from_tables("PhotoSet")
    }
}

impl Deletable for PhotoSet {
    fn delete_builder() -> (b: DeleteQueryBuilder) {
        DeleteQueryBuilder::default().from_tables("PhotoSet")
    }
}

impl Updatable for PhotoSet {
    fn update_builder() -> (b: UpdateQueryBuilder) {
        UpdateQueryBuilder::default().table("PhotoSet")
    }
}

impl Insertable for PhotoSet {
    fn insert_builder() -> (b: InsertQueryBuilder) {
        let b = InsertQueryBuilder::default().table("PhotoSet");
        proof {
            assert(b@.columns =~= insert_columns::<PhotoSet>());
        }
        b
    }

    fn insert_query() -> (sql: String) {
        proof {
            lemma_insert_seed_plain::<Self>();
            lemma_insert_sql(insert_seed::<Self>());
        }
        Self::insert_builder().build()
    }

    fn insert_args(&self) -> (args: Vec<Value>) {
        let mut args: Vec<Value> = Vec::new();
        proof {
            assert(values_of(args@) =~= insert_values(self));
        }
        args
    }
}

/// A photo.
#[derive(Debug, Clone, PartialEq, Eq)]
pub struct Photo {
    pub ID: i32,
    pub Blob: Vec<u8>,
}

impl Photo {
    /// A photo that the database has not stored yet.
    pub fn new(Blob: Vec<u8>) -> (r: Photo)
        ensures
            r.ID == -1,
            r.Blob == Blob,
    {
        Photo { ID: -1, Blob }
    }
}

impl Entity for Photo {
    open spec fn table_name() -> Seq<char> {
        "Photo"@
    }

    open spec fn shape() -> Seq<(Seq<char>, Kind)> {
        seq![("ID"@, Kind::Int), ("Blob"@, Kind::Bytes)]
    }

    open spec fn keyed() -> bool {
        true
    }

    open spec fn cells(&self) -> Seq<(Seq<char>, ValueModel)> {
        seq![("ID"@, ValueModel::Int(self.ID)), ("Blob"@, ValueModel::Bytes(self.Blob@))]
    }

    proof fn lemma_shape() {
        reveal_strlit("Photo");
        reveal_strlit("ID");
        reveal_strlit("Blob");
        let s = Self::shape();
        assert(s[0].0.len() == 2);
        assert(s[1].0.len() == 4);
    }

    proof fn lemma_cells(&self) {
    }

    fn from_row(row: &Row) -> (r: Option<Self>) {
        let ghost s = Self::shape();
        let id = row.integer("ID");
        let blob = row.bytes("Blob");
        proof {
            assert(s[0] == ("ID"@, Kind::Int));
            assert(s[1] == ("Blob"@, Kind::Bytes));
        }
        match (id, blob) {
            (Some(ID), Some(Blob)) => {
                let e = Photo { ID, Blob };
                proof {
                    assert(readable(s, row@));
                    assert(read(s, row@)->0 =~= e.cells());
                }
                Some(e)
            },
            _ => {
                assert(!readable(s, row@));
                None
            },
        }
    }
}

impl Queryable for Photo {
    fn select_builder() -> (b: SelectQueryBuilder) {
        SelectQueryBuilder::default().from_tables("Photo")
    }
}

impl Deletable for Photo {
    fn delete_builder() -> (b: DeleteQueryBuilder) {
        DeleteQueryBuilder::default().from_tables("Photo")
    }
}

impl Updatable for Photo {
    fn update_builder() -> (b: UpdateQueryBuilder) {
        UpdateQueryBuilder::default().table("Photo")
    }
}

impl Insertable for Photo {
    fn insert_builder() -> (b: InsertQueryBuilder) {
        let b = InsertQueryBuilder::default().table("Photo").set("Blob");
        proof {
            assert(b@.columns =~= insert_columns::<Photo>());
        }
        b
    }

    fn insert_query() -> (sql: String) {
        proof {
            lemma_insert_seed_plain::<Self>();
            lemma_insert_sql(insert_seed::<Self>());
        }
        Self::insert_builder().build()
    }

    fn insert_args(&self) -> (args: Vec<Value>) {
        let mut args: Vec<Value> = Vec::new();
        args.push(Value::Bytes(copy_bytes(&self.Blob)));
        proof {
            assert(values_of(args@) =~= insert_values(self));
        }
        args
    }
}

/// A photo belongs to a photo set.
#[derive(Debug, Clone, PartialEq, Eq)]
pub struct PhotoSetPhotos {
    pub PhotoSetID: i32,
    pub PhotoID: i32,
}

impl PhotoSetPhotos {
    /// The mark that a photo belongs to a photo set.
    pub fn new(PhotoSetID: i32, PhotoID: i32) -> (r: PhotoSetPhotos)
        ensures
            r.PhotoSetID == PhotoSetID,
            r.PhotoID == PhotoID,
    {
        PhotoSetPhotos { PhotoSetID, PhotoID }
    }
}

impl Entity for PhotoSetPhotos {
    open spec fn table_name() -> Seq<char> {
        "PhotoSetPhotos"@
    }

    open spec fn shape() -> Seq<(Seq<char>, Kind)> {
        seq![("PhotoSetID"@, Kind::Int), ("PhotoID"@, Kind::Int)]
    }

    open spec fn keyed() -> bool {
        false
    }

    open spec fn cells(&self) -> Seq<(Seq<char>, ValueModel)> {
        seq![
            ("PhotoSetID"@, ValueModel::Int(self.PhotoSetID)),
            ("PhotoID"@, ValueModel::Int(self.PhotoID)),
        ]
    }

    proof fn lemma_shape() {
        reveal_strlit("PhotoSetPhotos");
        reveal_strlit("PhotoSetID");
        reveal_strlit("PhotoID");
        let s = Self::shape();
        assert(s[0].0.len() == 10);
        assert(s[1].0.len() == 7);
    }

    proof fn lemma_cells(&self) {
    }

    fn from_row(row: &Row) -> (r: Option<Self>) {
        let ghost s = Self::shape();
        let photo_set_id = row.integer("PhotoSetID");
        let photo_id = row.integer("PhotoID");
        proof {
            assert(s[0] == ("PhotoSetID"@, Kind::Int));
            assert(s[1] == ("PhotoID"@, Kind::Int));
        }
        match (photo_set_id, photo_id) {
            (Some(PhotoSetID), Some(PhotoID)) => {
                let e = PhotoSetPhotos { PhotoSetID, PhotoID };
                proof {
                    assert(readable(s, row@));
                    assert(read(s, row@)->0 =~= e.cells());
                }
                Some(e)
            },
            _ => {
                assert(!readable(s, row@));
                None
            },
        }
    }
}

impl Queryable for PhotoSetPhotos {
    fn select_builder() -> (b: SelectQueryBuilder) {
        SelectQueryBuilder::default().from_tables("PhotoSetPhotos")
    }
}

impl Deletable for PhotoSetPhotos {
    fn delete_builder() -> (b: DeleteQueryBuilder) {
        DeleteQueryBuilder::default().from_tables("PhotoSetPhotos")
    }
}

impl Updatable for PhotoSetPhotos {
    fn update_builder() -> (b: UpdateQueryBuilder) {
        UpdateQueryBuilder::default().table("PhotoSetPhotos")
    }
}

impl Insertable for PhotoSetPhotos {
    fn insert_builder() -> (b: InsertQueryBuilder) {
        let b = InsertQueryBuilder::default()
            .table("PhotoSetPhotos")
            .set("PhotoSetID")
            .set("PhotoID");
        proof {
            assert(b@.columns =~= insert_columns::<PhotoSetPhotos>());
        }
        b
    }

    fn insert_query() -> (sql: String) {
        proof {
            lemma_insert_seed_plain::<Self>();
            lemma_insert_sql(insert_seed::<Self>());
        }
        Self::insert_builder().build()
    }

    fn insert_args(&self) -> (args: Vec<Value>) {
        let mut args: Vec<Value> = Vec::new();
        args.push(Value::Int(self.PhotoSetID));
        args.push(Value::Int(self.PhotoID));
        proof {
            assert(values_of(args@) =~= insert_values(self));
        }
        args
    }
}

/// A city in which hotels stand.
#[derive(Debug, Clone, PartialEq, Eq)]
pub struct City {
    pub ID: i32,
    pub Name: String,
}

impl City {
    /// A city that the database has not stored yet.
    pub fn new(Name: String) -> (r: City)
        ensures
            r.ID == -1,
            r.Name == Name,
    {
        City { ID: -1, Name }
    }
}

impl Entity for City {
    open spec fn table_name() -> Seq<char> {
        "City"@
    }

    open spec fn shape() -> Seq<(Seq<char>, Kind)> {
        seq![("ID"@, Kind::Int), ("Name"@, Kind::Text)]
    }

    open spec fn keyed() -> bool {
        true
    }

    open spec fn cells(&self) -> Seq<(Seq<char>, ValueModel)> {
        seq![("ID"@, ValueModel::Int(self.ID)), ("Name"@, ValueModel::Text(self.Name@))]
    }

    proof fn lemma_shape() {
        reveal_strlit("City");
        reveal_strlit("ID");
        reveal_strlit("Name");
        let s = Self::shape();
        assert(s[0].0.len() == 2);
        assert(s[1].0.len() == 4);
    }

    proof fn lemma_cells(&self) {
    }

    fn from_row(row: &Row) -> (r: Option<Self>) {
        let ghost s = Self::shape();
        let id = row.integer("ID");
        let name = row.text("Name");
        proof {
            assert(s[0] == ("ID"@, Kind::Int));
            assert(s[1] == ("Name"@, Kind::Text));
        }
        match (id, name) {
            (Some(ID), Some(Name)) => {
                let e = City { ID, Name };
                proof {
                    assert(readable(s, row@));
                    assert(read(s, row@)->0 =~= e.cells());
                }
                Some(e)
            },
            _ => {
                assert(!readable(s, row@));
                None
            },
        }
    }
}

impl Queryable for City {
    fn select_builder() -> (b: SelectQueryBuilder) {
        SelectQueryBuilder::default().from_tables("City")
    }
}

impl Deletable for City {
    fn delete_builder() -> (b: DeleteQueryBuilder) {
        DeleteQueryBuilder::default().from_tables("City")
    }
}

impl Updatable for City {
    fn update_builder() -> (b: UpdateQueryBuilder) {
        UpdateQueryBuilder::default().table("City")
    }
}

impl Insertable for City {
    fn insert_builder() -> (b: InsertQueryBuilder) {
        let b = InsertQueryBuilder::default().table("City").set("Name");
        proof {
            assert(b@.columns =~= insert_columns::<City>());
        }
        b
    }

    fn insert_query() -> (sql: String) {
        proof {
            lemma_insert_seed_plain::<Self>();
            lemma_insert_sql(insert_seed::<Self>());
        }
        Self::insert_builder().build()
    }

    fn insert_args(&self) -> (args: Vec<Value>) {
        let mut args: Vec<Value> = Vec::new();
        args.push(Value::Text(self.Name.clone()));
        proof {
            assert(values_of(args@) =~= insert_values(self));
        }
        args
    }
}

/// A hotel.
#[derive(Debug, Clone, PartialEq, Eq)]
pub struct Hotel {
    pub ID: i32,
    pub OwnerPersonID: i32,
    pub RuleSetID: i32,
    pub CityID: i32,
    pub PhotoSetID: Option<i32>,
    pub Name: String,
    pub Description: String,
    pub Rating: Option<i32>,
    pub Stars: Option<i32>,
}

impl Hotel {
    /// A hotel that the database has not stored yet.
    pub fn new(
        OwnerPersonID: i32,
        RuleSetID: i32,
        CityID: i32,
        PhotoSetID: Option<i32>,
        Name: String,
        Description: String,
        Rating: Option<i32>,
        Stars: Option<i32>,
    ) -> (r: Hotel)
        ensures
            r.ID == -1,
            r.OwnerPersonID == OwnerPersonID,
            r.RuleSetID == RuleSetID,
            r.CityID == CityID,
            r.PhotoSetID == PhotoSetID,
            r.Name == Name,
            r.Description == Description,
            r.Rating == Rating,
            r.Stars == Stars,
    {
        Hotel {
            ID: -1,
            OwnerPersonID,
            RuleSetID,
            CityID,
            PhotoSetID,
            Name,
            Description,
            Rating,
            Stars,
        }
    }
}

impl Entity for Hotel {
    open spec fn table_name() -> Seq<char> {
        "Hotel"@
    }

    open spec fn shape() -> Seq<(Seq<char>, Kind)> {
        seq![
            ("ID"@, Kind::Int),
            ("OwnerPersonID"@, Kind::Int),
            ("RuleSetID"@, Kind::Int),
            ("CityID"@, Kind::Int),
            ("PhotoSetID"@, Kind::OptInt),
            ("Name"@, Kind::Text),
            ("Description"@, Kind::Text),
            ("Rating"@, Kind::OptInt),
            ("Stars"@, Kind::OptInt),
        ]
    }

    open spec fn keyed() -> bool {
        true
    }

    open spec fn cells(&self) -> Seq<(Seq<char>, ValueModel)> {
        seq![
            ("ID"@, ValueModel::Int(self.ID)),
            ("OwnerPersonID"@, ValueModel::Int(self.OwnerPersonID)),
            ("RuleSetID"@, ValueModel::Int(self.RuleSetID)),
            ("CityID"@, ValueModel::Int(self.CityID)),
            ("PhotoSetID"@, opt_int_model(self.PhotoSetID)),
            ("Name"@, ValueModel::Text(self.Name@)),
            ("Description"@, ValueModel::Text(self.Description@)),
            ("Rating"@, opt_int_model(self.Rating)),
            ("Stars"@, opt_int_model(self.Stars)),
        ]
    }

    proof fn lemma_shape() {
        reveal_strlit("Hotel");
        reveal_strlit("ID");
        reveal_strlit("OwnerPersonID");
        reveal_strlit("RuleSetID");
        reveal_strlit("CityID");
        reveal_strlit("PhotoSetID");
        reveal_strlit("Name");
        reveal_strlit("Description");
        reveal_strlit("Rating");
        reveal_strlit("Stars");
        let s = Self::shape();
        assert(s[0].0.len() == 2);
        assert(s[1].0.len() == 13);
        assert(s[2].0.len() == 9);
        assert(s[3].0.len() == 6);
        assert(s[4].0.len() == 10);
        assert(s[5].0.len() == 4);
        assert(s[6].0.len() == 11);
        assert(s[7].0.len() == 6);
        assert(s[8].0.len() == 5);
        assert(lower(s[3].0[0]) != lower(s[7].0[0]));
    }

    proof fn lemma_cells(&self) {
    }

    fn from_row(row: &Row) -> (r: Option<Self>) {
        let ghost s = Self::shape();
        let id = row.integer("ID");
        let owner_person_id = row.integer("OwnerPersonID");
        let rule_set_id = row.integer("RuleSetID");
        let city_id = row.integer("CityID");
        let photo_set_id = row.opt_integer("PhotoSetID");
        let name = row.text("Name");
        let description = row.text("Description");
        let rating = row.opt_integer("Rating");
        let stars = row.opt_integer("Stars");
        proof {
            assert(s[0] == ("ID"@, Kind::Int));
            assert(s[1] == ("OwnerPersonID"@, Kind::Int));
            assert(s[2] == ("RuleSetID"@, Kind::Int));
            assert(s[3] == ("CityID"@, Kind::Int));
            assert(s[4] == ("PhotoSetID"@, Kind::OptInt));
            assert(s[5] == ("Name"@, Kind::Text));
            assert(s[6] == ("Description"@, Kind::Text));
            assert(s[7] == ("Rating"@, Kind::OptInt));
            assert(s[8] == ("Stars"@, Kind::OptInt));
        }
        match (
            id,
            owner_person_id,
            rule_set_id,
            city_id,
            photo_set_id,
            name,
            description,
            rating,
            stars,
        ) {
            (
                Some(ID),
                Some(OwnerPersonID),
                Some(RuleSetID),
                Some(CityID),
                Some(PhotoSetID),
                Some(Name),
                Some(Description),
                Some(Rating),
                Some(Stars),
            ) => {
                let e = Hotel {
                    ID,
                    OwnerPersonID,
                    RuleSetID,
                    CityID,
                    PhotoSetID,
                    Name,
                    Description,
                    Rating,
                    Stars,
                };
                proof {
                    assert(readable(s, row@));
                    assert(read(s, row@)->0 =~= e.cells());
                }
                Some(e)
            },
            _ => {
                assert(!readable(s, row@));
                None
            },
        }
    }
}

impl Queryable for Hotel {
    fn select_builder() -> (b: SelectQueryBuilder) {
        SelectQueryBuilder::default().from_tables("Hotel")
    }
}

impl Deletable for Hotel {
    fn delete_builder() -> (b: DeleteQueryBuilder) {
        DeleteQueryBuilder::default().from_tables("Hotel")
    }
}

impl Updatable for Hotel {
    fn update_builder() -> (b: UpdateQueryBuilder) {
        UpdateQueryBuilder::default().table("Hotel")
    }
}

impl Insertable for Hotel {
    fn insert_builder() -> (b: InsertQueryBuilder) {
        let b = InsertQueryBuilder::default()
            .table("Hotel")
            .set("OwnerPersonID")
            .set("RuleSetID")
            .set("CityID")
            .set("PhotoSetID")
            .set("Name")
            .set("Description")
            .set("Rating")
            .set("Stars");
        proof {
            assert(b@.columns =~= insert_columns::<Hotel>());
        }
        b
    }

    fn insert_query() -> (sql: String) {
        proof {
            lemma_insert_seed_plain::<Self>();
            lemma_insert_sql(insert_seed::<Self>());
        }
        Self::insert_builder().build()
    }

    fn insert_args(&self) -> (args: Vec<Value>) {
        let mut args: Vec<Value> = Vec::new();
        args.push(Value::Int(self.OwnerPersonID));
        args.push(Value::Int(self.RuleSetID));
        args.push(Value::Int(self.CityID));
        args.push(opt_int_value(self.PhotoSetID));
        args.push(Value::Text(self.Name.clone()));
        args.push(Value::Text(self.Description.clone()));
        args.push(opt_int_value(self.Rating));
        args.push(opt_int_value(self.Stars));
        proof {
            assert(values_of(args@) =~= insert_values(self));
        }
        args
    }
}

/// The person works in the hotel.
#[derive(Debug, Clone, PartialEq, Eq)]
pub struct EmployedIn {
    pub PersonID: i32,
    pub HotelID: i32,
}

impl EmployedIn {
    /// The mark that the person works in the hotel.
    pub fn new(PersonID: i32, HotelID: i32) -> (r: EmployedIn)
        ensures
            r.PersonID == PersonID,
            r.HotelID == HotelID,
    {
        EmployedIn { PersonID, HotelID }
    }
}

impl Entity for EmployedIn {
    open spec fn table_name() -> Seq<char> {
        "EmployedIn"@
    }

    open spec fn shape() -> Seq<(Seq<char>, Kind)> {
        seq![("PersonID"@, Kind::Int), ("HotelID"@, Kind::Int)]
    }

    open spec fn keyed() -> bool {
        false
    }

    open spec fn cells(&self) -> Seq<(Seq<char>, ValueModel)> {
        seq![
            ("PersonID"@, ValueModel::Int(self.PersonID)),
            ("HotelID"@, ValueModel::Int(self.HotelID)),
        ]
    }

    proof fn lemma_shape() {
        reveal_strlit("EmployedIn");
        reveal_strlit("PersonID");
        reveal_strlit("HotelID");
        let s = Self::shape();
        assert(s[0].0.len() == 8);
        assert(s[1].0.len() == 7);
    }

    proof fn lemma_cells(&self) {
    }

    fn from_row(row: &Row) -> (r: Option<Self>) {
        let ghost s = Self::shape();
        let person_id = row.integer("PersonID");
        let hotel_id = row.integer("HotelID");
        proof {
            assert(s[0] == ("PersonID"@, Kind::Int));
            assert(s[1] == ("HotelID"@, Kind::Int));
        }
        match (person_id, hotel_id) {
            (Some(PersonID), Some(HotelID)) => {
                let e = EmployedIn { PersonID, HotelID };
                proof {
                    assert(readable(s, row@));
                    assert(read(s, row@)->0 =~= e.cells());
                }
                Some(e)
            },
            _ => {
                assert(!readable(s, row@));
                None
            },
        }
    }
}

impl Queryable for EmployedIn {
    fn select_builder() -> (b: SelectQueryBuilder) {
        SelectQueryBuilder::default().from_tables("EmployedIn")
    }
}

impl Deletable for EmployedIn {
    fn delete_builder() -> (b: DeleteQueryBuilder) {
        DeleteQueryBuilder::default().from_tables("EmployedIn")
    }
}

impl Updatable for EmployedIn {
    fn update_builder() -> (b: UpdateQueryBuilder) {
        UpdateQueryBuilder::default().table("EmployedIn")
    }
}

impl Insertable for EmployedIn {
    fn insert_builder() -> (b: InsertQueryBuilder) {
        let b = InsertQueryBuilder::default().table("EmployedIn").set("PersonID").set("HotelID");
        proof {
            assert(b@.columns =~= insert_columns::<EmployedIn>());
        }
        b
    }

    fn insert_query() -> (sql: String) {
        proof {
            lemma_insert_seed_plain::<Self>();
            lemma_insert_sql(insert_seed::<Self>());
        }
        Self::insert_builder().build()
    }

    fn insert_args(&self) -> (args: Vec<Value>) {
        let mut args: Vec<Value> = Vec::new();
        args.push(Value::Int(self.PersonID));
        args.push(Value::Int(self.HotelID));
        proof {
            assert(values_of(args@) =~= insert_values(self));
        }
        args
    }
}

/// A room of a hotel.
#[derive(Debug, Clone, PartialEq, Eq)]
pub struct Room {
    pub HotelID: i32,
    pub RoomNumber: i32,
    pub RoomLevel: i32,
    pub PhotoSetID: Option<i32>,
}

impl Room {
    /// A room of a hotel.
    pub fn new(HotelID: i32, RoomNumber: i32, RoomLevel: i32, PhotoSetID: Option<i32>) -> (r: Room)
        ensures
            r.HotelID == HotelID,
            r.RoomNumber == RoomNumber,
            r.RoomLevel == RoomLevel,
            r.PhotoSetID == PhotoSetID,
    {
        Room { HotelID, RoomNumber, RoomLevel, PhotoSetID }
    }
}

impl Entity for Room {
    open spec fn table_name() -> Seq<char> {
        "Room"@
    }

    open spec fn shape() -> Seq<(Seq<char>, Kind)> {
        seq![
            ("HotelID"@, Kind::Int),
            ("RoomNumber"@, Kind::Int),
            ("RoomLevel"@, Kind::Int),
            ("PhotoSetID"@, Kind::OptInt),
        ]
    }

    open spec fn keyed() -> bool {
        false
    }

    open spec fn cells(&self) -> Seq<(Seq<char>, ValueModel)> {
        seq![
            ("HotelID"@, ValueModel::Int(self.HotelID)),
            ("RoomNumber"@, ValueModel::Int(self.RoomNumber)),
            ("RoomLevel"@, ValueModel::Int(self.RoomLevel)),
            ("PhotoSetID"@, opt_int_model(self.PhotoSetID)),
        ]
    }

    proof fn lemma_shape() {
        reveal_strlit("Room");
        reveal_strlit("HotelID");
        reveal_strlit("RoomNumber");
        reveal_strlit("RoomLevel");
        reveal_strlit("PhotoSetID");
        let s = Self::shape();
        assert(s[0].0.len() == 7);
        assert(s[1].0.len() == 10);
        assert(s[2].0.len() == 9);
        assert(s[3].0.len() == 10);
        assert(lower(s[1].0[0]) != lower(s[3].0[0]));
    }

    proof fn lemma_cells(&self) {
    }

    fn from_row(row: &Row) -> (r: Option<Self>) {
        let ghost s = Self::shape();
        let hotel_id = row.integer("HotelID");
        let room_number = row.integer("RoomNumber");
        let room_level = row.integer("RoomLevel");
        let photo_set_id = row.opt_integer("PhotoSetID");
        proof {
            assert(s[0] == ("HotelID"@, Kind::Int));
            assert(s[1] == ("RoomNumber"@, Kind::Int));
            assert(s[2] == ("RoomLevel"@, Kind::Int));
            assert(s[3] == ("PhotoSetID"@, Kind::OptInt));
        }
        match (hotel_id, room_number, room_level, photo_set_id) {
            (Some(HotelID), Some(RoomNumber), Some(RoomLevel), Some(PhotoSetID)) => {
                let e = Room { HotelID, RoomNumber, RoomLevel, PhotoSetID };
                proof {
                    assert(readable(s, row@));
                    assert(read(s, row@)->0 =~= e.cells());
                }
                Some(e)
            },
            _ => {
                assert(!readable(s, row@));
                None
            },
        }
    }
}

impl Queryable for Room {
    fn select_builder() -> (b: SelectQueryBuilder) {
        SelectQueryBuilder::default().from_tables("Room")
    }
}

impl Deletable for Room {
    fn delete_builder() -> (b: DeleteQueryBuilder) {
        DeleteQueryBuilder::default().from_tables("Room")
    }
}

impl Updatable for Room {
    fn update_builder() -> (b: UpdateQueryBuilder) {
        UpdateQueryBuilder::default().table("Room")
    }
}

impl Insertable for Room {
    fn insert_builder() -> (b: InsertQueryBuilder) {
        let b = InsertQueryBuilder::default()
            .table("Room")
            .set("HotelID")
            .set("RoomNumber")
            .set("RoomLevel")
            .set("PhotoSetID");
        proof {
            assert(b@.columns =~= insert_columns::<Room>());
        }
        b
    }

    fn insert_query() -> (sql: String) {
        proof {
            lemma_insert_seed_plain::<Self>();
            lemma_insert_sql(insert_seed::<Self>());
        }
        Self::insert_builder().build()
    }

    fn insert_args(&self) -> (args: Vec<Value>) {
        let mut args: Vec<Value> = Vec::new();
        args.push(Value::Int(self.HotelID));
        args.push(Value::Int(self.RoomNumber));
        args.push(Value::Int(self.RoomLevel));
        args.push(opt_int_value(self.PhotoSetID));
        proof {
            assert(values_of(args@) =~= insert_values(self));
        }
        args
    }
}

/// A booking of a room by a client.
#[derive(Debug, Clone, PartialEq, Eq)]
pub struct Booking {
    pub ID: i32,
    pub ClientPersonID: i32,
    pub HotelID: i32,
    pub RoomNumber: i32,
    pub BookingTime: Timestamp,
    pub ArrivalTime: Timestamp,
    pub DepartureTime: Timestamp,
    pub FullCost: i32,
    pub Paid: bool,
}

impl Booking {
    /// A booking that the database has not stored yet.
    pub fn new(
        ClientPersonID: i32,
        HotelID: i32,
        RoomNumber: i32,
        BookingTime: Timestamp,
        ArrivalTime: Timestamp,
        DepartureTime: Timestamp,
        FullCost: i32,
        Paid: bool,
    ) -> (r: Booking)
        ensures
            r.ID == -1,
            r.ClientPersonID == ClientPersonID,
            r.HotelID == HotelID,
            r.RoomNumber == RoomNumber,
            r.BookingTime == BookingTime,
            r.ArrivalTime == ArrivalTime,
            r.DepartureTime == DepartureTime,
            r.FullCost == FullCost,
            r.Paid == Paid,
    {
        Booking {
            ID: -1,
            ClientPersonID,
            HotelID,
            RoomNumber,
            BookingTime,
            ArrivalTime,
            DepartureTime,
            FullCost,
            Paid,
        }
    }
}

impl Entity for Booking {
    open spec fn table_name() -> Seq<char> {
        "Booking"@
    }

    open spec fn shape() -> Seq<(Seq<char>, Kind)> {
        seq![
            ("ID"@, Kind::Int),
            ("ClientPersonID"@, Kind::Int),
            ("HotelID"@, Kind::Int),
            ("RoomNumber"@, Kind::Int),
            ("BookingTime"@, Kind::Time),
            ("ArrivalTime"@, Kind::Time),
            ("DepartureTime"@, Kind::Time),
            ("FullCost"@, Kind::Int),
            ("Paid"@, Kind::Bool),
        ]
    }

    open spec fn keyed() -> bool {
        true
    }

    open spec fn cells(&self) -> Seq<(Seq<char>, ValueModel)> {
        seq![
            ("ID"@, ValueModel::Int(self.ID)),
            ("ClientPersonID"@, ValueModel::Int(self.ClientPersonID)),
            ("HotelID"@, ValueModel::Int(self.HotelID)),
            ("RoomNumber"@, ValueModel::Int(self.RoomNumber)),
            ("BookingTime"@, ValueModel::Time(self.BookingTime)),
            ("ArrivalTime"@, ValueModel::Time(self.ArrivalTime)),
            ("DepartureTime"@, ValueModel::Time(self.DepartureTime)),
            ("FullCost"@, ValueModel::Int(self.FullCost)),
            ("Paid"@, ValueModel::Bool(self.Paid)),
        ]
    }

    proof fn lemma_shape() {
        reveal_strlit("Booking");
        reveal_strlit("ID");
        reveal_strlit("ClientPersonID");
        reveal_strlit("HotelID");
        reveal_strlit("RoomNumber");
        reveal_strlit("BookingTime");
        reveal_strlit("ArrivalTime");
        reveal_strlit("DepartureTime");
        reveal_strlit("FullCost");
        reveal_strlit("Paid");
        let s = Self::shape();
        assert(s[0].0.len() == 2);
        assert(s[1].0.len() == 14);
        assert(s[2].0.len() == 7);
        assert(s[3].0.len() == 10);
        assert(s[4].0.len() == 11);
        assert(s[5].0.len() == 11);
        assert(s[6].0.len() == 13);
        assert(s[7].0.len() == 8);
        assert(s[8].0.len() == 4);
        assert(lower(s[4].0[0]) != lower(s[5].0[0]));
    }

    proof fn lemma_cells(&self) {
    }

    fn from_row(row: &Row) -> (r: Option<Self>) {
        let ghost s = Self::shape();
        let id = row.integer("ID");
        let client_person_id = row.integer("ClientPersonID");
        let hotel_id = row.integer("HotelID");
        let room_number = row.integer("RoomNumber");
        let booking_time = row.time("BookingTime");
        let arrival_time = row.time("ArrivalTime");
        let departure_time = row.time("DepartureTime");
        let full_cost = row.integer("FullCost");
        let paid = row.boolean("Paid");
        proof {
            assert(s[0] == ("ID"@, Kind::Int));
            assert(s[1] == ("ClientPersonID"@, Kind::Int));
            assert(s[2] == ("HotelID"@, Kind::Int));
            assert(s[3] == ("RoomNumber"@, Kind::Int));
            assert(s[4] == ("BookingTime"@, Kind::Time));
            assert(s[5] == ("ArrivalTime"@, Kind::Time));
            assert(s[6] == ("DepartureTime"@, Kind::Time));
            assert(s[7] == ("FullCost"@, Kind::Int));
            assert(s[8] == ("Paid"@, Kind::Bool));
        }
        match (
            id,
            client_person_id,
            hotel_id,
            room_number,
            booking_time,
            arrival_time,
            departure_time,
            full_cost,
            paid,
        ) {
            (
                Some(ID),
                Some(ClientPersonID),
                Some(HotelID),
                Some(RoomNumber),
                Some(BookingTime),
                Some(ArrivalTime),
                Some(DepartureTime),
                Some(FullCost),
                Some(Paid),
            ) => {
                let e = Booking {
                    ID,
                    ClientPersonID,
                    HotelID,
                    RoomNumber,
                    BookingTime,
                    ArrivalTime,
                    DepartureTime,
                    FullCost,
                    Paid,
                };
                proof {
                    assert(readable(s, row@));
                    assert(read(s, row@)->0 =~= e.cells());
                }
                Some(e)
            },
            _ => {
                assert(!readable(s, row@));
                None
            },
        }
    }
}

impl Queryable for Booking {
    fn select_builder() -> (b: SelectQueryBuilder) {
        SelectQueryBuilder::default().from_tables("Booking")
    }
}

impl Deletable for Booking {
    fn delete_builder() -> (b: DeleteQueryBuilder) {
        DeleteQueryBuilder::default().from_tables("Booking")
    }
}

impl Updatable for Booking {
    fn update_builder() -> (b: UpdateQueryBuilder) {
        UpdateQueryBuilder::default().table("Booking")
    }
}

impl Insertable for Booking {
    fn insert_builder() -> (b: InsertQueryBuilder) {
        let b = InsertQueryBuilder::default()
            .table("Booking")
            .set("ClientPersonID")
            .set("HotelID")
            .set("RoomNumber")
            .set("BookingTime")
            .set("ArrivalTime")
            .set("DepartureTime")
            .set("FullCost")
            .set("Paid");
        proof {
            assert(b@.columns =~= insert_columns::<Booking>());
        }
        b
    }

    fn insert_query() -> (sql: String) {
        proof {
            lemma_insert_seed_plain::<Self>();
            lemma_insert_sql(insert_seed::<Self>());
        }
        Self::insert_builder().build()
    }

    fn insert_args(&self) -> (args: Vec<Value>) {
        let mut args: Vec<Value> = Vec::new();
        args.push(Value::Int(self.ClientPersonID));
        args.push(Value::Int(self.HotelID));
        args.push(Value::Int(self.RoomNumber));
        args.push(Value::Time(self.BookingTime));
        args.push(Value::Time(self.ArrivalTime));
        args.push(Value::Time(self.DepartureTime));
        args.push(Value::Int(self.FullCost));
        args.push(Value::Bool(self.Paid));
        proof {
            assert(values_of(args@) =~= insert_values(self));
        }
        args
    }
}

/// A receptionist made the booking for the client.
#[derive(Debug, Clone, PartialEq, Eq)]
pub struct MaintainedBy {
    pub BookingID: i32,
    pub ReceptionistPersonID: i32,
    pub MaintainedAt: Timestamp,
}

impl MaintainedBy {
    /// The mark that a receptionist made the booking.
    pub fn new(
        BookingID: i32,
        ReceptionistPersonID: i32,
        MaintainedAt: Timestamp,
    ) -> (r: MaintainedBy)
        ensures
            r.BookingID == BookingID,
            r.ReceptionistPersonID == ReceptionistPersonID,
            r.MaintainedAt == MaintainedAt,
    {
        MaintainedBy { BookingID, ReceptionistPersonID, MaintainedAt }
    }
}

impl Entity for MaintainedBy {
    open spec fn table_name() -> Seq<char> {
        "MaintainedBy"@
    }

    open spec fn shape() -> Seq<(Seq<char>, Kind)> {
        seq![
            ("BookingID"@, Kind::Int),
            ("ReceptionistPersonID"@, Kind::Int),
            ("MaintainedAt"@, Kind::Time),
        ]
    }

    open spec fn keyed() -> bool {
        false
    }

    open spec fn cells(&self) -> Seq<(Seq<char>, ValueModel)> {
        seq![
            ("BookingID"@, ValueModel::Int(self.BookingID)),
            ("ReceptionistPersonID"@, ValueModel::Int(self.ReceptionistPersonID)),
            ("MaintainedAt"@, ValueModel::Time(self.MaintainedAt)),
        ]
    }

    proof fn lemma_shape() {
        reveal_strlit("MaintainedBy");
        reveal_strlit("BookingID");
        reveal_strlit("ReceptionistPersonID");
        reveal_strlit("MaintainedAt");
        let s = Self::shape();
        assert(s[0].0.len() == 9);
        assert(s[1].0.len() == 20);
        assert(s[2].0.len() == 12);
    }

    proof fn lemma_cells(&self) {
    }

    fn from_row(row: &Row) -> (r: Option<Self>) {
        let ghost s = Self::shape();
        let booking_id = row.integer("BookingID");
        let receptionist_person_id = row.integer("ReceptionistPersonID");
        let maintained_at = row.time("MaintainedAt");
        proof {
            assert(s[0] == ("BookingID"@, Kind::Int));
            assert(s[1] == ("ReceptionistPersonID"@, Kind::Int));
            assert(s[2] == ("MaintainedAt"@, Kind::Time));
        }
        match (booking_id, receptionist_person_id, maintained_at) {
            (Some(BookingID), Some(ReceptionistPersonID), Some(MaintainedAt)) => {
                let e = MaintainedBy { BookingID, ReceptionistPersonID, MaintainedAt };
                proof {
                    assert(readable(s, row@));
                    assert(read(s, row@)->0 =~= e.cells());
                }
                Some(e)
            },
            _ => {
                assert(!readable(s, row@));
                None
            },
        }
    }
}

impl Queryable for MaintainedBy {
    fn select_builder() -> (b: SelectQueryBuilder) {
        SelectQueryBuilder::default().from_tables("MaintainedBy")
    }
}

impl Deletable for MaintainedBy {
    fn delete_builder() -> (b: DeleteQueryBuilder) {
        DeleteQueryBuilder::default().from_tables("MaintainedBy")
    }
}

impl Updatable for MaintainedBy {
    fn update_builder() -> (b: UpdateQueryBuilder) {
        UpdateQueryBuilder::default().table("MaintainedBy")
    }
}

impl Insertable for MaintainedBy {
    fn insert_builder() -> (b: InsertQueryBuilder) {
        let b = InsertQueryBuilder::default()
            .table("MaintainedBy")
            .set("BookingID")
            .set("ReceptionistPersonID")
            .set("MaintainedAt");
        proof {
            assert(b@.columns =~= insert_columns::<MaintainedBy>());
        }
        b
    }

    fn insert_query() -> (sql: String) {
        proof {
            lemma_insert_seed_plain::<Self>();
            lemma_insert_sql(insert_seed::<Self>());
        }
        Self::insert_builder().build()
    }

    fn insert_args(&self) -> (args: Vec<Value>) {
        let mut args: Vec<Value> = Vec::new();
        args.push(Value::Int(self.BookingID));
        args.push(Value::Int(self.ReceptionistPersonID));
        args.push(Value::Time(self.MaintainedAt));
        proof {
            assert(values_of(args@) =~= insert_values(self));
        }
        args
    }
}

/// A cleaning is assigned to a cleaner.
#[derive(Debug, Clone, PartialEq, Eq)]
pub struct AssignedCleaning {
    pub ToCleanID: i32,
    pub CleanerPersonID: i32,
}

impl AssignedCleaning {
    /// The mark that a cleaning is assigned to a cleaner.
    pub fn new(ToCleanID: i32, CleanerPersonID: i32) -> (r: AssignedCleaning)
        ensures
            r.ToCleanID == ToCleanID,
            r.CleanerPersonID == CleanerPersonID,
    {
        AssignedCleaning { ToCleanID, CleanerPersonID }
    }
}

impl Entity for AssignedCleaning {
    open spec fn table_name() -> Seq<char> {
        "AssignedCleaning"@
    }

    open spec fn shape() -> Seq<(Seq<char>, Kind)> {
        seq![("ToCleanID"@, Kind::Int), ("CleanerPersonID"@, Kind::Int)]
    }

    open spec fn keyed() -> bool {
        false
    }

    open spec fn cells(&self) -> Seq<(Seq<char>, ValueModel)> {
        seq![
            ("ToCleanID"@, ValueModel::Int(self.ToCleanID)),
            ("CleanerPersonID"@, ValueModel::Int(self.CleanerPersonID)),
        ]
    }

    proof fn lemma_shape() {
        reveal_strlit("AssignedCleaning");
        reveal_strlit("ToCleanID");
        reveal_strlit("CleanerPersonID");
        let s = Self::shape();
        assert(s[0].0.len() == 9);
        assert(s[1].0.len() == 15);
    }

    proof fn lemma_cells(&self) {
    }

    fn from_row(row: &Row) -> (r: Option<Self>) {
        let ghost s = Self::shape();
        let to_clean_id = row.integer("ToCleanID");
        let cleaner_person_id = row.integer("CleanerPersonID");
        proof {
            assert(s[0] == ("ToCleanID"@, Kind::Int));
            assert(s[1] == ("CleanerPersonID"@, Kind::Int));
        }
        match (to_clean_id, cleaner_person_id) {
            (Some(ToCleanID), Some(CleanerPersonID)) => {
                let e = AssignedCleaning { ToCleanID, CleanerPersonID };
                proof {
                    assert(readable(s, row@));
                    assert(read(s, row@)->0 =~= e.cells());
                }
                Some(e)
            },
            _ => {
                assert(!readable(s, row@));
                None
            },
        }
    }
}

impl Queryable for AssignedCleaning {
    fn select_builder() -> (b: SelectQueryBuilder) {
        SelectQueryBuilder::default().from_tables("AssignedCleaning")
    }
}

impl Deletable for AssignedCleaning {
    fn delete_builder() -> (b: DeleteQueryBuilder) {
        DeleteQueryBuilder::default().from_tables("AssignedCleaning")
    }
}

impl Updatable for AssignedCleaning {
    fn update_builder() -> (b: UpdateQueryBuilder) {
        UpdateQueryBuilder::default().table("AssignedCleaning")
    }
}

impl Insertable for AssignedCleaning {
    fn insert_builder() -> (b: InsertQueryBuilder) {
        let b = InsertQueryBuilder::default()
            .table("AssignedCleaning")
            .set("ToCleanID")
            .set("CleanerPersonID");
        proof {
            assert(b@.columns =~= insert_columns::<AssignedCleaning>());
        }
        b
    }

    fn insert_query() -> (sql: String) {
        proof {
            lemma_insert_seed_plain::<Self>();
            lemma_insert_sql(insert_seed::<Self>());
        }
        Self::insert_builder().build()
    }

    fn insert_args(&self) -> (args: Vec<Value>) {
        let mut args: Vec<Value> = Vec::new();
        args.push(Value::Int(self.ToCleanID));
        args.push(Value::Int(self.CleanerPersonID));
        proof {
            assert(values_of(args@) =~= insert_values(self));
        }
        args
    }
}

} // verus!
