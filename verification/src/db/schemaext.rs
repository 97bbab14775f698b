//! Records that are read from rows but have no table of their own, and the
//! statements that call the database's stored procedures.

pub mod procedure;

use super::row::{lower, read, readable, Kind, Row, ValueModel};
use super::Entity;
use vstd::prelude::*;
use vstd::string::*;

verus! {

/// What a person may see of the own account: a row of `Person` without the password.
#[derive(Debug, Clone, PartialEq, Eq)]
pub struct AccountInfo {
    pub ID: i32,
    pub Login: String,
    pub Name: String,
    pub Email: String,
}

impl AccountInfo {
    /// The account of a person.
    pub fn new(ID: i32, Login: String, Name: String, Email: String) -> (r: AccountInfo)
        ensures
            r.ID == ID,
            r.Login == Login,
            r.Name == Name,
            r.Email == Email,
    {
        AccountInfo { ID, Login, Name, Email }
    }
}

impl Entity for AccountInfo {
    open spec fn table_name() -> Seq<char> {
        "Person"@
    }

    open spec fn shape() -> Seq<(Seq<char>, Kind)> {
        seq![
            ("ID"@, Kind::Int),
            ("Login"@, Kind::Text),
            ("Name"@, Kind::Text),
            ("Email"@, Kind::Text),
        ]
    }

    open spec fn keyed() -> bool {
        false
    }

    open spec fn cells(&self) -> Seq<(Seq<char>, ValueModel)> {
        seq![
            ("ID"@, ValueModel::Int(self.ID)),
            ("Login"@, ValueModel::Text(self.Login@)),
            ("Name"@, ValueModel::Text(self.Name@)),
            ("Email"@, ValueModel::Text(self.Email@)),
        ]
    }

    proof fn lemma_shape() {
        reveal_strlit("Person");
        reveal_strlit("ID");
        reveal_strlit("Login");
        reveal_strlit("Name");
        reveal_strlit("Email");
        let s = Self::shape();
        assert(s[0].0.len() == 2);
        assert(s[1].0.len() == 5);
        assert(s[2].0.len() == 4);
        assert(s[3].0.len() == 5);
        assert(lower(s[1].0[0]) != lower(s[3].0[0]));
    }

    proof fn lemma_cells(&self) {
    }

    fn from_row(row: &Row) -> (r: Option<Self>) {
        let ghost s = Self::shape();
        let id = row.integer("ID");
        let login = row.text("Login");
        let name = row.text("Name");
        let email = row.text("Email");
        proof {
            assert(s[0] == ("ID"@, Kind::Int));
            assert(s[1] == ("Login"@, Kind::Text));
            assert(s[2] == ("Name"@, Kind::Text));
            assert(s[3] == ("Email"@, Kind::Text));
        }
        match (id, login, name, email) {
            (Some(ID), Some(Login), Some(Name), Some(Email)) => {
                let e = AccountInfo { ID, Login, Name, Email };
                proof {
                    assert(readable(s, row@));
                    assert(read(s, row@)->0 =~= e.cells());
                }
                Some(e)
            },
            _ => {
                assert(!readable(s, row@));
                None
            },
        }
    }
}

} // verus!
