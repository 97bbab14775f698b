//! Signing in, signing up, and the roles of a person.
//!
//! The service keeps two stores for as long as it runs: the identity behind
//! each token that it has handed out, and the roles of each identity that it
//! has asked for once. Neither is ever pruned. The functions here decide;
//! the statements that they hand back are run by the caller, who brings the
//! rows back.

use super::with_identity;
use crate::db::builder::select::SelectQuery;
use crate::db::row::{values_of, Statement, Value, ValueModel};
use crate::db::schema::{Cleaner, EmployedIn, Hotel, Manager, Owner, Person, Receptionist};
use crate::db::{build_select, insert_seed, select_seed, Insertable, Queryable};
use crate::proto::error::{ApiFailure, ApiResult, ErrorCode};
use crate::proto::schema::{opt_numbers, RoleSet, Roles, SigninData, SignupData};
use crate::text::{decimal, decimal_string, lemma_decimal_injective};
use vstd::hash_map::{HashMapWithView, StringHashMap};
use vstd::prelude::*;
use vstd::string::*;

verus! {

/// What a signed-in person shows with each request.
pub type Token = String;

/// A caller whose token was accepted.
#[derive(Debug, Clone, PartialEq, Eq)]
pub struct Authorized {
    pub id: i32,
    pub roles: Roles,
}

/// The token of an identity: its decimal text.
pub open spec fn token_text(id: i32) -> Seq<char> {
    decimal(id as int)
}

/// The identity behind a token, if the token was handed out.
pub open spec fn resolved(tokens: Map<Seq<char>, i32>, token: Seq<char>) -> Option<i32> {
    if tokens.contains_key(token) {
        Some(tokens[token])
    } else {
        None
    }
}

/// The identities behind the tokens handed out.
pub struct TokenMap {
    map: StringHashMap<i32>,
}

impl View for TokenMap {
    type V = Map<Seq<char>, i32>;

    closed spec fn view(&self) -> Map<Seq<char>, i32> {
        self.map@
    }
}

impl TokenMap {
    /// No token handed out.
    pub fn new() -> (m: TokenMap)
        ensures
            m@ == Map::<Seq<char>, i32>::empty(),
    {
        TokenMap { map: StringHashMap::new() }
    }

    /// The identity behind `token`.
    pub fn get(&self, token: &str) -> (r: Option<i32>)
        ensures
            r == resolved(self@, token@),
    {
        match self.map.get(token) {
            Some(id) => Some(*id),
            None => None,
        }
    }

    /// Binds `token` to `id`.
    pub fn put(&mut self, token: Token, id: i32)
        ensures
            final(self)@ == old(self)@.insert(token@, id),
    {
        self.map.insert(token, id);
    }
}

/// The roles of the identities that were asked for.
pub struct RolesMap {
    map: HashMapWithView<i32, Roles>,
}

impl View for RolesMap {
    type V = Map<i32, RoleSet>;

    closed spec fn view(&self) -> Map<i32, RoleSet> {
        self.map@.map_values(|r: Roles| r@)
    }
}

impl RolesMap {
    /// No roles known.
    pub fn new() -> (m: RolesMap)
        ensures
            m@ == Map::<i32, RoleSet>::empty(),
    {
        broadcast use vstd::std_specs::hash::group_hash_axioms;

        let m = RolesMap { map: HashMapWithView::new() };
        proof {
            assert(m.map@.map_values(|r: Roles| r@) =~= Map::<i32, RoleSet>::empty());
        }
        m
    }

    /// The roles of `id`, if they are known.
    pub fn get(&self, id: i32) -> (r: Option<Roles>)
        ensures
            match r {
                Some(roles) => self@.contains_key(id) && self@[id] == roles@,
                None => !self@.contains_key(id),
            },
    {
        match self.map.get(&id) {
            Some(roles) => Some(roles.copy()),
            None => None,
        }
    }

    /// Keeps the roles under the identity that they name.
    pub fn put(&mut self, roles: Roles)
        ensures
            final(self)@ == old(self)@.insert(roles.ID, roles@),
    {
        let ghost before = self.map@;
        let ghost id = roles.ID;
        let ghost set = roles@;
        self.map.insert(roles.ID, roles);
        proof {
            assert(self.map@.map_values(|r: Roles| r@) =~= before.map_values(|r: Roles| r@).insert(
                id,
                set,
            ));
        }
    }
}

/// What is asked of the database about a person.
#[derive(Debug, Clone, Copy, PartialEq, Eq, Structural)]
pub enum RoleQuestion {
    /// Is there a row for the person in `Owner`?
    IsOwner,
    /// Is there a row for the person in `Manager`?
    IsManager,
    /// Is there a row for the person in `Cleaner`?
    IsCleaner,
    /// Is there a row for the person in `Receptionist`?
    IsReceptionist,
    /// Which hotels does the person own?
    OwnedHotels,
    /// In which hotels does the person work?
    EmployedIn,
}

/// What the database said.
#[derive(Debug, Clone, PartialEq, Eq)]
pub enum RoleAnswer {
    /// Whether the query returned a row.
    Exists(bool),
    /// The hotels that the query returned, in its order.
    Hotels(Vec<i32>),
}

/// What a [`RoleAnswer`] holds.
pub enum RoleReply {
    Exists(bool),
    Hotels(Seq<i32>),
}

impl View for RoleAnswer {
    type V = RoleReply;

    open spec fn view(&self) -> RoleReply {
        match self {
            RoleAnswer::Exists(b) => RoleReply::Exists(*b),
            RoleAnswer::Hotels(v) => RoleReply::Hotels(v@),
        }
    }
}

/// The answers gathered so far about one person.
#[derive(Debug, Clone, PartialEq, Eq)]
pub struct RoleInquiry {
    id: i32,
    owner: Option<bool>,
    manager: Option<bool>,
    cleaner: Option<bool>,
    receptionist: Option<bool>,
    owns: Option<Vec<i32>>,
    employed_in: Option<Vec<i32>>,
}

/// What a [`RoleInquiry`] holds.
pub struct Inquiry {
    pub id: i32,
    pub owner: Option<bool>,
    pub manager: Option<bool>,
    pub cleaner: Option<bool>,
    pub receptionist: Option<bool>,
    pub owns: Option<Seq<i32>>,
    pub employed_in: Option<Seq<i32>>,
}

impl Inquiry {
    /// Nothing asked yet.
    pub open spec fn fresh(id: i32) -> Inquiry {
        Inquiry {
            id,
            owner: None,
            manager: None,
            cleaner: None,
            receptionist: None,
            owns: None,
            employed_in: None,
        }
    }

    /// The person has one of the roles of an employee.
    pub open spec fn employed(self) -> bool {
        self.manager == Some(true) || self.cleaner == Some(true) || self.receptionist == Some(true)
    }

    /// The question that comes next: the four roles in turn, then the hotels
    /// owned if the person is an owner, then the hotels worked in if the
    /// person is employed. Nothing when all is known.
    pub open spec fn pending(self) -> Option<RoleQuestion> {
        if self.owner is None {
            Some(RoleQuestion::IsOwner)
        } else if self.manager is None {
            Some(RoleQuestion::IsManager)
        } else if self.cleaner is None {
            Some(RoleQuestion::IsCleaner)
        } else if self.receptionist is None {
            Some(RoleQuestion::IsReceptionist)
        } else if self.owner == Some(true) && self.owns is None {
            Some(RoleQuestion::OwnedHotels)
        } else if self.employed() && self.employed_in is None {
            Some(RoleQuestion::EmployedIn)
        } else {
            None
        }
    }

    /// The inquiry after `reply` to the pending question. A reply of the
    /// other kind, or one that nothing asked for, changes nothing.
    pub open spec fn answered(self, reply: RoleReply) -> Inquiry {
        match (self.pending(), reply) {
            (Some(RoleQuestion::IsOwner), RoleReply::Exists(b)) => Inquiry {
                owner: Some(b),
                ..self
            },
            (Some(RoleQuestion::IsManager), RoleReply::Exists(b)) => Inquiry {
                manager: Some(b),
                ..self
            },
            (Some(RoleQuestion::IsCleaner), RoleReply::Exists(b)) => Inquiry {
                cleaner: Some(b),
                ..self
            },
            (Some(RoleQuestion::IsReceptionist), RoleReply::Exists(b)) => Inquiry {
                receptionist: Some(b),
                ..self
            },
            (Some(RoleQuestion::OwnedHotels), RoleReply::Hotels(h)) => Inquiry {
                owns: Some(h),
                ..self
            },
            (Some(RoleQuestion::EmployedIn), RoleReply::Hotels(h)) => Inquiry {
                employed_in: Some(h),
                ..self
            },
            _ => self,
        }
    }

    /// The roles that the answers amount to: a role is held where its row
    /// exists; the hotels owned are listed for an owner only, the hotels
    /// worked in for the employed only.
    pub open spec fn roles(self) -> RoleSet {
        RoleSet {
            id: self.id,
            owner: self.owner == Some(true),
            owns: if self.owner == Some(true) {
                self.owns
            } else {
                None
            },
            manager: self.manager == Some(true),
            cleaner: self.cleaner == Some(true),
            receptionist: self.receptionist == Some(true),
            employed_in: if self.employed() {
                self.employed_in
            } else {
                None
            },
        }
    }

    /// What to do next: ask the pending question, or be done with the roles.
    pub open spec fn step(self) -> StepModel {
        match self.pending() {
            Some(q) => StepModel::Ask(q, self),
            None => StepModel::Done(self.roles()),
        }
    }
}

impl View for RoleInquiry {
    type V = Inquiry;

    closed spec fn view(&self) -> Inquiry {
        Inquiry {
            id: self.id,
            owner: self.owner,
            manager: self.manager,
            cleaner: self.cleaner,
            receptionist: self.receptionist,
            owns: opt_numbers(self.owns),
            employed_in: opt_numbers(self.employed_in),
        }
    }
}

/// What is to be done next for the roles of a person.
#[derive(Debug, Clone, PartialEq, Eq)]
pub enum RoleStep {
    /// Run the question's statement and come back with the answer.
    Ask(RoleQuestion, RoleInquiry),
    /// The roles are known.
    Done(Roles),
}

/// What a [`RoleStep`] holds.
pub enum StepModel {
    Ask(RoleQuestion, Inquiry),
    Done(RoleSet),
}

impl View for RoleStep {
    type V = StepModel;

    open spec fn view(&self) -> StepModel {
        match self {
            RoleStep::Ask(q, i) => StepModel::Ask(*q, i@),
            RoleStep::Done(r) => StepModel::Done(r@),
        }
    }
}

impl RoleInquiry {
    /// The question that comes next.
    fn pending(&self) -> (q: Option<RoleQuestion>)
        ensures
            q == self@.pending(),
    {
        if self.owner.is_none() {
            Some(RoleQuestion::IsOwner)
        } else if self.manager.is_none() {
            Some(RoleQuestion::IsManager)
        } else if self.cleaner.is_none() {
            Some(RoleQuestion::IsCleaner)
        } else if self.receptionist.is_none() {
            Some(RoleQuestion::IsReceptionist)
        } else if is_true(self.owner) && self.owns.is_none() {
            Some(RoleQuestion::OwnedHotels)
        } else if (is_true(self.manager) || is_true(self.cleaner) || is_true(self.receptionist))
            && self.employed_in.is_none() {
            Some(RoleQuestion::EmployedIn)
        } else {
            None
        }
    }

    /// What to do next.
    fn step(self) -> (s: RoleStep)
        ensures
            s@ == self@.step(),
    {
        match self.pending() {
            Some(q) => RoleStep::Ask(q, self),
            None => {
                let owner = is_true(self.owner);
                let manager = is_true(self.manager);
                let cleaner = is_true(self.cleaner);
                let receptionist = is_true(self.receptionist);
                RoleStep::Done(
                    Roles {
                        ID: self.id,
                        Owner: owner,
                        Owns: if owner {
                            self.owns
                        } else {
                            None
                        },
                        Manager: manager,
                        Cleaner: cleaner,
                        Receptionist: receptionist,
                        EmployedIn: if manager || cleaner || receptionist {
                            self.employed_in
                        } else {
                            None
                        },
                    },
                )
            },
        }
    }

    /// The person that the inquiry is about.
    pub fn id(&self) -> (id: i32)
        ensures
            id == self@.id,
    {
        self.id
    }

    /// Starts to ask for the roles of `id`.
    pub fn begin(id: i32) -> (s: RoleStep)
        ensures
            s@ == Inquiry::fresh(id).step(),
    {
        let inquiry = RoleInquiry {
            id,
            owner: None,
            manager: None,
            cleaner: None,
            receptionist: None,
            owns: None,
            employed_in: None,
        };
        inquiry.step()
    }

    /// Takes the answer to the pending question and says what to do next.
    pub fn answer(self, reply: RoleAnswer) -> (s: RoleStep)
        ensures
            s@ == self@.answered(reply@).step(),
    {
        let pending = self.pending();
        let mut next = self;
        match (pending, reply) {
            (Some(RoleQuestion::IsOwner), RoleAnswer::Exists(b)) => {
                next.owner = Some(b);
            },
            (Some(RoleQuestion::IsManager), RoleAnswer::Exists(b)) => {
                next.manager = Some(b);
            },
            (Some(RoleQuestion::IsCleaner), RoleAnswer::Exists(b)) => {
                next.cleaner = Some(b);
            },
            (Some(RoleQuestion::IsReceptionist), RoleAnswer::Exists(b)) => {
                next.receptionist = Some(b);
            },
            (Some(RoleQuestion::OwnedHotels), RoleAnswer::Hotels(h)) => {
                next.owns = Some(h);
            },
            (Some(RoleQuestion::EmployedIn), RoleAnswer::Hotels(h)) => {
                next.employed_in = Some(h);
            },
            _ => {},
        }
        next.step()
    }
}

/// Whether the answer is a yes.
fn is_true(o: Option<bool>) -> (r: bool)
    ensures
        r == (o == Some(true)),
{
    match o {
        Some(b) => b,
        None => false,
    }
}

/// What to do next for the roles of `id`, given the roles that are known.
pub open spec fn roles_step(known: Map<i32, RoleSet>, id: i32) -> StepModel {
    if known.contains_key(id) {
        StepModel::Done(known[id])
    } else {
        Inquiry::fresh(id).step()
    }
}

/// The roles that are known after a step of an inquiry: the roles of a
/// person are kept once they are complete, unless roles of that person are
/// known already. What is known is never replaced.
pub open spec fn remembered(known: Map<i32, RoleSet>, step: StepModel) -> Map<i32, RoleSet> {
    match step {
        StepModel::Done(roles) => if known.contains_key(roles.id) {
            known
        } else {
            known.insert(roles.id, roles)
        },
        StepModel::Ask(_, _) => known,
    }
}

/// The step of an inquiry as its caller sees it: complete roles give way to
/// the roles that are known of the person already.
pub open spec fn settled(known: Map<i32, RoleSet>, step: StepModel) -> StepModel {
    match step {
        StepModel::Done(roles) => if known.contains_key(roles.id) {
            StepModel::Done(known[roles.id])
        } else {
            step
        },
        StepModel::Ask(_, _) => step,
    }
}

/// The failure of the kind `code` with the description `text`.
pub open spec fn fails<T>(r: Result<T, ApiFailure>, code: ErrorCode, text: Seq<char>) -> bool {
    match r {
        Ok(_) => false,
        Err(e) => e.code == code && e.description@ == text,
    }
}

/// The rows of a person in the table of a role.
fn role_rows<E: Queryable>() -> (sql: String)
    ensures
        sql@ == (SelectQuery { filter: Some("PersonID = $1"@), ..select_seed::<E>() }).direct(),
{
    let b = E::select_builder().filter("PersonID = $1");
    proof {
        reveal_strlit("*");
        reveal_strlit("PersonID = $1");
    }
    build_select::<E>(b)
}

impl RoleQuestion {
    /// The statement of the question, written out.
    pub open spec fn text(self) -> Seq<char> {
        match self {
            RoleQuestion::IsOwner => "SELECT * FROM Owner WHERE PersonID = $1    ;"@,
            RoleQuestion::IsManager => "SELECT * FROM Manager WHERE PersonID = $1    ;"@,
            RoleQuestion::IsCleaner => "SELECT * FROM Cleaner WHERE PersonID = $1    ;"@,
            RoleQuestion::IsReceptionist => "SELECT * FROM Receptionist WHERE PersonID = $1    ;"@,
            RoleQuestion::OwnedHotels => "SELECT ID FROM Hotel WHERE OwnerPersonID = $1    ;"@,
            RoleQuestion::EmployedIn => "SELECT HotelID FROM EmployedIn WHERE PersonID = $1    ;"@,
        }
    }

    /// The statement that asks the question about the person `id`, with
    /// the identity as its one argument.
    pub fn statement(self, id: i32) -> (s: Statement)
        ensures
            s@ == (self.text(), seq![ValueModel::Int(id)]),
    {
        let sql = match self {
            RoleQuestion::IsOwner => {
                let sql = role_rows::<Owner>();
                proof {
                    lemma_select_words();
                    reveal_strlit("Owner");
                    reveal_strlit("SELECT * FROM Owner WHERE PersonID = $1    ;");
                    assert(sql@ =~= self.text());
                }
                sql
            },
            RoleQuestion::IsManager => {
                let sql = role_rows::<Manager>();
                proof {
                    lemma_select_words();
                    reveal_strlit("Manager");
                    reveal_strlit("SELECT * FROM Manager WHERE PersonID = $1    ;");
                    assert(sql@ =~= self.text());
                }
                sql
            },
            RoleQuestion::IsCleaner => {
                let sql = role_rows::<Cleaner>();
                proof {
                    lemma_select_words();
                    reveal_strlit("Cleaner");
                    reveal_strlit("SELECT * FROM Cleaner WHERE PersonID = $1    ;");
                    assert(sql@ =~= self.text());
                }
                sql
            },
            RoleQuestion::IsReceptionist => {
                let sql = role_rows::<Receptionist>();
                proof {
                    lemma_select_words();
                    reveal_strlit("Receptionist");
                    reveal_strlit("SELECT * FROM Receptionist WHERE PersonID = $1    ;");
                    assert(sql@ =~= self.text());
                }
                sql
            },
            RoleQuestion::OwnedHotels => {
                let b = Hotel::select_builder().columns("ID").filter("OwnerPersonID = $1");
                proof {
                    lemma_select_words();
                    reveal_strlit("ID");
                    reveal_strlit("OwnerPersonID = $1");
                    reveal_strlit("Hotel");
                    reveal_strlit("SELECT ID FROM Hotel WHERE OwnerPersonID = $1    ;");
                    assert(b@.direct() =~= self.text());
                }
                build_select::<Hotel>(b)
            },
            RoleQuestion::EmployedIn => {
                let b = EmployedIn::select_builder().columns("HotelID").filter("PersonID = $1");
                proof {
                    lemma_select_words();
                    reveal_strlit("HotelID");
                    reveal_strlit("PersonID = $1");
                    reveal_strlit("EmployedIn");
                    reveal_strlit("SELECT HotelID FROM EmployedIn WHERE PersonID = $1    ;");
                    assert(b@.direct() =~= self.text());
                }
                build_select::<EmployedIn>(b)
            },
        };
        with_identity(sql, id)
    }
}

/// What the pieces of a `SELECT` on the default template are, character by
/// character.
proof fn lemma_select_words()
    ensures
        "SELECT "@ == seq!['S', 'E', 'L', 'E', 'C', 'T', ' '],
        " FROM "@ == seq![' ', 'F', 'R', 'O', 'M', ' '],
        "WHERE "@ == seq!['W', 'H', 'E', 'R', 'E', ' '],
        " "@ == seq![' '],
        ";"@ == seq![';'],
        "*"@ == seq!['*'],
        "PersonID = $1"@ == seq!['P', 'e', 'r', 's', 'o', 'n', 'I', 'D', ' ', '=', ' ', '$', '1'],
{
    reveal_strlit("SELECT ");
    reveal_strlit(" FROM ");
    reveal_strlit("WHERE ");
    reveal_strlit(" ");
    reveal_strlit(";");
    reveal_strlit("*");
    reveal_strlit("PersonID = $1");
    assert("SELECT "@ =~= seq!['S', 'E', 'L', 'E', 'C', 'T', ' ']);
    assert(" FROM "@ =~= seq![' ', 'F', 'R', 'O', 'M', ' ']);
    assert("WHERE "@ =~= seq!['W', 'H', 'E', 'R', 'E', ' ']);
    assert(" "@ =~= seq![' ']);
    assert(";"@ =~= seq![';']);
    assert("*"@ =~= seq!['*']);
    assert("PersonID = $1"@ =~= seq![
        'P',
        'e',
        'r',
        's',
        'o',
        'n',
        'I',
        'D',
        ' ',
        '=',
        ' ',
        '$',
        '1',
    ]);
}

/// The decisions of signing in, signing up and authorizing.
pub struct Authorizer;

impl Authorizer {
    /// The statement that finds the person with a login and a password.
    pub open spec fn signin_text() -> Seq<char> {
        "SELECT * FROM Person WHERE Login = $1 and PassHash = $2    ;"@
    }

    /// The statement that finds the person who signs in, with the login and
    /// the password's hash as its arguments.
    pub fn signin_statement(signin_data: &SigninData) -> (s: Statement)
        ensures
            s@ == (
                Self::signin_text(),
                seq![
                    ValueModel::Text(signin_data.Login@),
                    ValueModel::Text(signin_data.PassHash@),
                ],
            ),
    {
        let b = Person::select_builder().filter("Login = $1 and PassHash = $2");
        proof {
            lemma_select_words();
            reveal_strlit("Login = $1 and PassHash = $2");
            reveal_strlit("Person");
            reveal_strlit("SELECT * FROM Person WHERE Login = $1 and PassHash = $2    ;");
            assert(b@.direct() =~= Self::signin_text());
        }
        let sql = build_select::<Person>(b);
        let mut args: Vec<Value> = Vec::new();
        args.push(Value::Text(signin_data.Login.clone()));
        args.push(Value::Text(signin_data.PassHash.clone()));
        proof {
            assert(values_of(args@) =~= seq![
                ValueModel::Text(signin_data.Login@),
                ValueModel::Text(signin_data.PassHash@),
            ]);
        }
        Statement { sql, args }
    }

    /// Decides a sign-in from the persons that its statement found. No
    /// person is a failure. One person gets the token of the person's
    /// identity, which from now on resolves to it. More than one person
    /// with a login is a fault of the database that nothing here can mend:
    /// the caller has to stop before.
    pub fn signin(tokens: &mut TokenMap, found: &Vec<Person>) -> (r: ApiResult<Token>)
        requires
            found.len() <= 1,
        ensures
            found.len() == 0 ==> fails(
                r,
                ErrorCode::SigninError,
                "Login-password pair not found"@,
            ) && final(tokens)@ == old(tokens)@,
            found.len() == 1 ==> r is Ok && r->Ok_0@ == token_text(found[0].ID) && final(tokens)@
                == old(tokens)@.insert(token_text(found[0].ID), found[0].ID),
    {
        if found.len() == 0 {
            return Err(
                ApiFailure::from_str(ErrorCode::SigninError, "Login-password pair not found"),
            );
        }
        let id = found[0].ID;
        let token = decimal_string(id as i64);
        tokens.put(token.clone(), id);
        Ok(token)
    }

    /// The statement that stores the person who signs up, with the login,
    /// the name, the address and the password's hash as its arguments.
    pub fn signup_statement(signup_data: &SignupData) -> (s: Statement)
        ensures
            s@ == (
                insert_seed::<Person>().direct(),
                seq![
                    ValueModel::Text(signup_data.Login@),
                    ValueModel::Text(signup_data.Name@),
                    ValueModel::Text(signup_data.Email@),
                    ValueModel::Text(signup_data.PassHash@),
                ],
            ),
    {
        let sql = Person::insert_query();
        let mut args: Vec<Value> = Vec::new();
        args.push(Value::Text(signup_data.Login.clone()));
        args.push(Value::Text(signup_data.Name.clone()));
        args.push(Value::Text(signup_data.Email.clone()));
        args.push(Value::Text(signup_data.PassHash.clone()));
        proof {
            assert(values_of(args@) =~= seq![
                ValueModel::Text(signup_data.Login@),
                ValueModel::Text(signup_data.Name@),
                ValueModel::Text(signup_data.Email@),
                ValueModel::Text(signup_data.PassHash@),
            ]);
        }
        Statement { sql, args }
    }

    /// Decides a sign-up from what became of its statement. A person that
    /// could not be stored is a failure with the database's words. A stored
    /// person signs in with the same login and password.
    pub fn signup(stored: Result<(), String>, signup_data: &SignupData) -> (r: ApiResult<
        SigninData,
    >)
        ensures
            match stored {
                Ok(_) => r is Ok && r->Ok_0.Login@ == signup_data.Login@ && r->Ok_0.PassHash@
                    == signup_data.PassHash@,
                Err(reason) => fails(r, ErrorCode::SignupError, reason@),
            },
    {
        match stored {
            Ok(_) => Ok(
                SigninData {
                    Login: signup_data.Login.clone(),
                    PassHash: signup_data.PassHash.clone(),
                },
            ),
            Err(reason) => Err(ApiFailure { code: ErrorCode::SignupError, description: reason }),
        }
    }

    /// The identity behind a token. A token that was never handed out is a
    /// failure.
    pub fn authorize(tokens: &TokenMap, token: &str) -> (r: ApiResult<i32>)
        ensures
            match resolved(tokens@, token@) {
                Some(id) => r == Ok::<i32, ApiFailure>(id),
                None => fails(r, ErrorCode::NotAuthorizedError, "Token has expired"@),
            },
    {
        match tokens.get(token) {
            Some(id) => Ok(id),
            None => Err(ApiFailure::from_str(ErrorCode::NotAuthorizedError, "Token has expired")),
        }
    }

    /// The identity of the caller of a request. A request without a token
    /// is a failure, and so is one with a token that was never handed out.
    pub fn authorize_request(tokens: &TokenMap, token_cookie: Option<&str>) -> (r: ApiResult<i32>)
        ensures
            match token_cookie {
                None => fails(r, ErrorCode::NotAuthorizedError, "No token found in request"@),
                Some(token) => match resolved(tokens@, token@) {
                    Some(id) => r == Ok::<i32, ApiFailure>(id),
                    None => fails(r, ErrorCode::NotAuthorizedError, "Token has expired"@),
                },
            },
    {
        match token_cookie {
            Some(token) => Self::authorize(tokens, token),
            None => Err(
                ApiFailure::from_str(ErrorCode::NotAuthorizedError, "No token found in request"),
            ),
        }
    }

    /// The roles of `id` if they are known, without a question; else the
    /// first question to ask.
    pub fn get_roles(known: &RolesMap, id: i32) -> (s: RoleStep)
        ensures
            s@ == roles_step(known@, id),
    {
        match known.get(id) {
            Some(roles) => RoleStep::Done(roles),
            None => RoleInquiry::begin(id),
        }
    }

    /// Takes the answer to the question of an inquiry. When the roles are
    /// complete with it, they are kept for good under their identity. Where
    /// another inquiry into the same person was faster, its roles stay and
    /// are the ones that come back.
    pub fn answer_roles(known: &mut RolesMap, inquiry: RoleInquiry, reply: RoleAnswer) -> (s:
        RoleStep)
        ensures
            s@ == settled(old(known)@, inquiry@.answered(reply@).step()),
            final(known)@ == remembered(old(known)@, inquiry@.answered(reply@).step()),
    {
        let step = inquiry.answer(reply);
        match step {
            RoleStep::Done(roles) => {
                match known.get(roles.ID) {
                    Some(kept) => RoleStep::Done(kept),
                    None => {
                        known.put(roles.copy());
                        RoleStep::Done(roles)
                    },
                }
            },
            RoleStep::Ask(question, inquiry) => RoleStep::Ask(question, inquiry),
        }
    }
}

/// Roles that were completed once are answered from what is known ever
/// after: the same roles, and no question to the database.
pub proof fn lemma_roles_asked_once(known: Map<i32, RoleSet>, inquiry: Inquiry, reply: RoleReply)
    requires
        inquiry.answered(reply).step() is Done,
    ensures
        roles_step(
            remembered(known, inquiry.answered(reply).step()),
            inquiry.id,
        ) == settled(known, inquiry.answered(reply).step()),
{
}

/// What is known of a person never changes: no step of any inquiry replaces
/// or removes it, and asking for the roles of the person gives the same
/// roles before and after.
pub proof fn lemma_roles_stable(known: Map<i32, RoleSet>, id: i32, step: StepModel)
    requires
        known.contains_key(id),
    ensures
        remembered(known, step).contains_key(id),
        remembered(known, step)[id] == known[id],
        roles_step(remembered(known, step), id) == roles_step(known, id),
        roles_step(known, id) == StepModel::Done(known[id]),
{
}

/// The token of a sign-in resolves to the identity that signed in.
pub proof fn lemma_token_resolves(tokens: Map<Seq<char>, i32>, id: i32)
    ensures
        resolved(tokens.insert(token_text(id), id), token_text(id)) == Some(id),
{
}

/// A token keeps its identity whoever signs in after: the sign-in of
/// another identity binds another token, and a further sign-in of the same
/// identity gets the same token again.
pub proof fn lemma_token_keeps(tokens: Map<Seq<char>, i32>, id: i32, later: i32)
    requires
        resolved(tokens, token_text(id)) == Some(id),
    ensures
        resolved(tokens.insert(token_text(later), later), token_text(id)) == Some(id),
        later == id <==> token_text(later) == token_text(id),
{
    if token_text(later) == token_text(id) {
        lemma_decimal_injective(later as int, id as int);
    }
}

} // verus!
