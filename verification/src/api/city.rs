//! Cities.

use super::without_arguments;
use crate::db::row::{values_of, Statement, Value, ValueModel};
use crate::db::schema::City;
use crate::db::{build_select, insert_seed, select_seed, Insertable, Queryable};
use crate::proto::schema::NewCity;
use vstd::prelude::*;
use vstd::string::*;

verus! {

/// The statement that lists every city.
pub fn get_cities() -> (s: Statement)
    ensures
        s@ == (select_seed::<City>().direct(), Seq::<ValueModel>::empty()),
{
    let b = City::select_builder();
    proof {
        reveal_strlit("*");
    }
    without_arguments(build_select::<City>(b))
}

/// The statement that stores a new city, with its name as the argument.
pub fn put_city(new_city: &NewCity) -> (s: Statement)
    ensures
        s@ == (insert_seed::<City>().direct(), seq![ValueModel::Text(new_city.Name@)]),
{
    let sql = City::insert_query();
    let mut args: Vec<Value> = Vec::new();
    args.push(Value::Text(new_city.Name.clone()));
    proof {
        assert(values_of(args@) =~= seq![ValueModel::Text(new_city.Name@)]);
    }
    Statement { sql, args }
}

} // verus!
