//! SQL statement builders and the binding of record types to tables.
//!
//! A record type is bound to its table by one declaration: the table's name
//! and the columns in their order, each with its kind. From it follow the
//! four builders that come with the table's name in place, the reading of a
//! record from a row by the names of its columns, and the arguments of an
//! `INSERT` in the order of its placeholders.

pub mod builder;
pub mod row;
pub mod schema;
pub mod schemaext;

use self::builder::delete::{lemma_delete_sql, DeleteQuery};
use self::builder::insert::InsertQuery;
use self::builder::select::{
    lemma_select_builds, lemma_select_plain, lemma_select_sql, opt_bound, SelectQuery,
};
use self::builder::update::{lemma_update_builds, lemma_update_sql, UpdateQuery};
use self::row::{
    cells_of, copy_value, distinct_folded, lemma_folded_distinct, lemma_read_folded,
    lemma_read_shaped, read, renamed, same_folded, shaped, shaped_folded, values_of, Kind, Row,
    Statement, Value, ValueModel,
};
use crate::occurrence::{
    bound_dollars, is_name, lemma_bound_absent, lemma_clear_absent, lemma_plain_bound,
    lemma_plain_clear, no_dollar,
};
use crate::text::contains;
use vstd::prelude::*;
use vstd::string::*;

pub use self::builder::{
    DeleteQueryBuilder, InsertQueryBuilder, NoSuchPatternError, QueryBuilder, SelectQueryBuilder,
    UpdateQueryBuilder,
};

verus! {

/// A record type bound to a table.
pub trait Entity: Sized {
    /// The table's name.
    spec fn table_name() -> Seq<char>;

    /// The declared columns, in their order, each with its kind.
    spec fn shape() -> Seq<(Seq<char>, Kind)>;

    /// The first column is `ID`, which the database assigns: an `INSERT`
    /// leaves it out.
    spec fn keyed() -> bool;

    /// The record as cells: the declared columns in their order, each with
    /// the value of its field.
    spec fn cells(&self) -> Seq<(Seq<char>, ValueModel)>;

    /// The declaration is sound: the column names differ from each other,
    /// even up to the case of their letters; neither they nor the table's
    /// name hold a dollar sign; and a keyed record starts with the integer
    /// column `ID`.
    proof fn lemma_shape()
        ensures
            distinct_folded(Self::shape()),
            no_dollar(Self::table_name()),
            forall|i: int|
                0 <= i < Self::shape().len() ==> no_dollar((#[trigger] Self::shape()[i]).0),
            Self::keyed() ==> Self::shape().len() > 0 && Self::shape()[0] == ("ID"@, Kind::Int),
    ;

    /// A record's cells have the declared names and kinds.
    proof fn lemma_cells(&self)
        ensures
            shaped(self.cells(), Self::shape()),
    ;

    /// Reads a record from a row, each column by its name. There is none
    /// where a column is missing or holds a value of another kind.
    fn from_row(row: &Row) -> (r: Option<Self>)
        ensures
            match r {
                Some(e) => read(Self::shape(), row@) == Some(e.cells()),
                None => read(Self::shape(), row@) is None,
            },
    ;
}

/// The number of leading columns that an `INSERT` leaves out.
pub open spec fn key_count<E: Entity>() -> int {
    if E::keyed() {
        1
    } else {
        0
    }
}

/// The columns of an `INSERT`, in the order of its placeholders: the
/// declared columns, without the `ID` of a keyed record.
pub open spec fn insert_columns<E: Entity>() -> Seq<Seq<char>> {
    E::shape().skip(key_count::<E>()).map_values(|c: (Seq<char>, Kind)| c.0)
}

/// The values of a record for the columns of an `INSERT`, in their order.
pub open spec fn insert_values<E: Entity>(e: &E) -> Seq<ValueModel> {
    e.cells().skip(key_count::<E>()).map_values(|c: (Seq<char>, ValueModel)| c.1)
}

/// What a table's builder for `SELECT` holds: the table, every column.
pub open spec fn select_seed<E: Entity>() -> SelectQuery {
    SelectQuery {
        from_tables: Some(E::table_name()),
        ..SelectQuery::fresh(SelectQuery::default_template())
    }
}

/// What a table's builder for `DELETE` holds: the table.
pub open spec fn delete_seed<E: Entity>() -> DeleteQuery {
    DeleteQuery {
        from_tables: Some(E::table_name()),
        ..DeleteQuery::fresh(DeleteQuery::default_template())
    }
}

/// What a table's builder for `UPDATE` holds: the table.
pub open spec fn update_seed<E: Entity>() -> UpdateQuery {
    UpdateQuery {
        table: Some(E::table_name()),
        ..UpdateQuery::fresh(UpdateQuery::default_template())
    }
}

/// What a table's builder for `INSERT` holds: the table and its columns.
pub open spec fn insert_seed<E: Entity>() -> InsertQuery {
    InsertQuery {
        template: InsertQuery::default_template(),
        table: Some(E::table_name()),
        columns: insert_columns::<E>(),
    }
}

/// Record types whose rows can be selected.
pub trait Queryable: Entity {
    /// A builder for `SELECT` on the record's table.
    fn select_builder() -> (b: SelectQueryBuilder)
        ensures
            b@ == select_seed::<Self>(),
    ;
}

/// Record types whose rows can be deleted.
pub trait Deletable: Entity {
    /// A builder for `DELETE` on the record's table.
    fn delete_builder() -> (b: DeleteQueryBuilder)
        ensures
            b@ == delete_seed::<Self>(),
    ;
}

/// Record types whose rows can be updated.
pub trait Updatable: Entity {
    /// A builder for `UPDATE` on the record's table.
    fn update_builder() -> (b: UpdateQueryBuilder)
        ensures
            b@ == update_seed::<Self>(),
    ;
}

/// Record types whose rows can be inserted.
pub trait Insertable: Entity {
    /// A builder for `INSERT` on the record's table, with one column set for
    /// each declared column, in the order of the declaration.
    fn insert_builder() -> (b: InsertQueryBuilder)
        ensures
            b@ == insert_seed::<Self>(),
    ;

    /// The `INSERT` statement of the record's table.
    fn insert_query() -> (sql: String)
        ensures
            sql@ == insert_seed::<Self>().direct(),
    ;

    /// The arguments of the `INSERT` statement for this record: the values
    /// of its columns in the order of the statement's placeholders.
    fn insert_args(&self) -> (args: Vec<Value>)
        ensures
            values_of(args@) == insert_values(self),
    ;
}

/// Text without a dollar sign holds no placeholder.
pub proof fn lemma_plain_absent(a: Seq<char>, p: Seq<char>)
    requires
        no_dollar(a),
        p.len() > 0,
        p[0] == '$',
    ensures
        !contains(a, p),
{
    lemma_plain_clear(a, p);
    lemma_clear_absent(a, p);
}

/// The seed of a table's `INSERT` holds no placeholder in its fragments.
pub proof fn lemma_insert_seed_plain<E: Entity>()
    ensures
        insert_seed::<E>().plain(),
{
    E::lemma_shape();
    reveal_strlit("$columns");
    reveal_strlit("$placeholders");
    let q = insert_seed::<E>();
    lemma_plain_absent(E::table_name(), "$columns"@);
    lemma_plain_absent(E::table_name(), "$placeholders"@);
    assert forall|i: int| 0 <= i < q.columns.len() implies !contains(
        #[trigger] q.columns[i],
        "$placeholders"@,
    ) by {
        let k = key_count::<E>() + i;
        assert(q.columns[i] == E::shape()[k].0);
        lemma_plain_absent(E::shape()[k].0, "$placeholders"@);
    }
}

/// A record read from its own cells is the record: every column is found
/// under its name, with the value of its field.
pub proof fn lemma_round_trip<E: Entity>(e: &E)
    ensures
        read(E::shape(), e.cells()) == Some(e.cells()),
{
    E::lemma_shape();
    e.lemma_cells();
    lemma_folded_distinct(E::shape());
    lemma_read_shaped(e.cells(), E::shape());
}

/// A record is read just as well from cells whose names come in another
/// case, as from a database that folds the names of columns: with the
/// record's values in the record's order, they are read as the record.
pub proof fn lemma_round_trip_folded<E: Entity>(e: &E, cells: Seq<(Seq<char>, ValueModel)>)
    requires
        cells.len() == e.cells().len(),
        forall|i: int|
            0 <= i < cells.len() ==> same_folded((#[trigger] cells[i]).0, e.cells()[i].0)
                && cells[i].1 == e.cells()[i].1,
    ensures
        read(E::shape(), cells) == Some(e.cells()),
{
    E::lemma_shape();
    e.lemma_cells();
    assert(shaped_folded(cells, E::shape())) by {
        assert forall|i: int| 0 <= i < E::shape().len() implies same_folded(
            (#[trigger] cells[i]).0,
            E::shape()[i].0,
        ) && row::fits(E::shape()[i].1, cells[i].1) by {
            assert(e.cells()[i].0 == E::shape()[i].0);
        }
    }
    lemma_read_folded(cells, E::shape());
    assert(renamed(cells, E::shape()) =~= e.cells()) by {
        assert forall|i: int| 0 <= i < E::shape().len() implies renamed(cells, E::shape())[i]
            == e.cells()[i] by {
            assert(e.cells()[i].0 == E::shape()[i].0);
        }
    }
}

/// The arguments of an `INSERT` follow its columns: there are as many, and
/// the argument at each place is the value of the record's field for the
/// column at that place.
pub proof fn lemma_insert_order<E: Entity>(e: &E)
    ensures
        insert_values(e).len() == insert_columns::<E>().len(),
        forall|i: int|
            0 <= i < insert_columns::<E>().len() ==> e.cells()[key_count::<E>() + i] == (
                #[trigger] insert_columns::<E>()[i],
                insert_values(e)[i],
            ),
{
    E::lemma_shape();
    e.lemma_cells();
    let k = key_count::<E>();
    assert forall|i: int| 0 <= i < insert_columns::<E>().len() implies e.cells()[k + i] == (
        #[trigger] insert_columns::<E>()[i],
        insert_values(e)[i],
    ) by {
        assert(e.cells()[k + i].0 == E::shape()[k + i].0);
    }
}

/// The row that the database holds after an `INSERT` of the record `e`: the
/// assigned `ID`, if the record is keyed, then each column of the statement
/// with the argument at its place.
pub open spec fn stored<E: Entity>(e: &E, id: i32) -> Seq<(Seq<char>, ValueModel)> {
    let inserted = Seq::new(
        insert_columns::<E>().len(),
        |i: int| (insert_columns::<E>()[i], insert_values(e)[i]),
    );
    if E::keyed() {
        seq![("ID"@, ValueModel::Int(id))] + inserted
    } else {
        inserted
    }
}

/// The record read from the row that its `INSERT` stored has the values of
/// the record in every column of the statement, and the assigned `ID`. With
/// the `ID` that the record has, or without one, it is the record.
pub proof fn lemma_insert_round_trip<E: Entity>(e: &E, id: i32)
    ensures
        read(E::shape(), stored(e, id)) == Some(stored(e, id)),
        stored(e, id).len() == e.cells().len(),
        forall|i: int|
            key_count::<E>() <= i < e.cells().len() ==> #[trigger] stored(e, id)[i] == e.cells()[i],
        E::keyed() ==> stored(e, id)[0] == ("ID"@, ValueModel::Int(id)),
        !E::keyed() || e.cells()[0].1 == ValueModel::Int(id) ==> stored(e, id) == e.cells(),
{
    E::lemma_shape();
    e.lemma_cells();
    lemma_insert_order(e);
    lemma_folded_distinct(E::shape());
    let s = stored(e, id);
    let k = key_count::<E>();
    assert(s.len() == e.cells().len());
    assert forall|i: int| k <= i < e.cells().len() implies #[trigger] s[i] == e.cells()[i] by {
        assert(s[i] == (insert_columns::<E>()[i - k], insert_values(e)[i - k]));
    }
    assert(shaped(s, E::shape())) by {
        assert forall|i: int| 0 <= i < E::shape().len() implies (#[trigger] s[i]).0
            == E::shape()[i].0 && row::fits(E::shape()[i].1, s[i].1) by {
            if i >= k {
                assert(s[i] == e.cells()[i]);
            }
        }
    }
    lemma_read_shaped(s, E::shape());
    if !E::keyed() || e.cells()[0].1 == ValueModel::Int(id) {
        assert(s =~= e.cells());
    }
}

/// A `SELECT` on a record's table, on the default template, with fragments
/// whose dollar signs are all bound, is the statement written out.
pub proof fn lemma_table_select<E: Entity>(q: SelectQuery)
    requires
        q.template == SelectQuery::default_template(),
        q.from_tables == Some(E::table_name()),
        opt_bound(q.columns),
        opt_bound(q.filter),
        opt_bound(q.group_by),
        opt_bound(q.order_by),
    ensures
        q.sql() == Ok::<Seq<char>, Seq<char>>(q.direct()),
{
    E::lemma_shape();
    lemma_plain_bound(E::table_name());
    lemma_select_plain(q);
    lemma_select_sql(q);
}

/// Renders a `SELECT` on a record's table. Where the fragments have all
/// their dollar signs bound, it is the statement written out.
pub fn build_select<E: Entity>(b: SelectQueryBuilder) -> (sql: String)
    requires
        b@.template == SelectQuery::default_template(),
        b@.from_tables == Some(E::table_name()),
    ensures
        b@.sql() == Ok::<Seq<char>, Seq<char>>(sql@),
        opt_bound(b@.columns) && opt_bound(b@.filter) && opt_bound(b@.group_by) && opt_bound(
            b@.order_by,
        ) ==> sql@ == b@.direct(),
{
    proof {
        lemma_select_builds(b@);
        if opt_bound(b@.columns) && opt_bound(b@.filter) && opt_bound(b@.group_by) && opt_bound(
            b@.order_by,
        ) {
            lemma_table_select::<E>(b@);
        }
    }
    b.build()
}

/// Renders a `SELECT` on tables of the caller's choice. Where the fragments
/// have all their dollar signs bound, it is the statement written out.
pub fn build_join(b: SelectQueryBuilder) -> (sql: String)
    requires
        b@.template == SelectQuery::default_template(),
        b@.from_tables is Some,
    ensures
        b@.sql() == Ok::<Seq<char>, Seq<char>>(sql@),
        opt_bound(b@.from_tables) && opt_bound(b@.columns) && opt_bound(b@.filter) && opt_bound(
            b@.group_by,
        ) && opt_bound(b@.order_by) ==> sql@ == b@.direct(),
{
    proof {
        lemma_select_builds(b@);
        if opt_bound(b@.from_tables) && opt_bound(b@.columns) && opt_bound(b@.filter) && opt_bound(
            b@.group_by,
        ) && opt_bound(b@.order_by) {
            lemma_select_plain(b@);
            lemma_select_sql(b@);
        }
    }
    b.build()
}

/// Renders a `DELETE` on a record's table: the statement written out.
pub fn build_delete<E: Entity>(b: DeleteQueryBuilder) -> (sql: String)
    requires
        b@.template == DeleteQuery::default_template(),
        b@.from_tables == Some(E::table_name()),
    ensures
        sql@ == b@.direct(),
{
    proof {
        E::lemma_shape();
        reveal_strlit("$where_clause");
        lemma_plain_absent(E::table_name(), "$where_clause"@);
        lemma_delete_sql(b@);
    }
    b.build()
}

/// All the names have all their dollar signs bound.
pub open spec fn all_bound(names: Seq<Seq<char>>) -> bool {
    forall|i: int| 0 <= i < names.len() ==> bound_dollars(#[trigger] names[i])
}

/// Renders an `UPDATE` on a record's table. Where the names of the columns
/// have all their dollar signs bound, it is the statement written out.
pub fn build_update<E: Entity>(b: UpdateQueryBuilder) -> (sql: String)
    requires
        b@.template == UpdateQuery::default_template(),
        b@.table == Some(E::table_name()),
    ensures
        b@.sql() == Ok::<Seq<char>, Seq<char>>(sql@),
        all_bound(b@.columns) ==> sql@ == b@.direct(),
{
    proof {
        lemma_update_builds(b@);
        if all_bound(b@.columns) {
            E::lemma_shape();
            reveal_strlit("$where_clause");
            reveal_strlit("$columns");
            assert(is_name("$where_clause"@));
            lemma_plain_absent(E::table_name(), "$where_clause"@);
            lemma_plain_absent(E::table_name(), "$columns"@);
            assert forall|i: int| 0 <= i < b@.columns.len() implies !contains(
                #[trigger] b@.columns[i],
                "$where_clause"@,
            ) by {
                lemma_bound_absent(b@.columns[i], "$where_clause"@);
            }
            lemma_update_sql(b@);
        }
    }
    b.build()
}

/// The names of the columns of changes, in their order.
pub open spec fn changed_columns(changes: Seq<(Seq<char>, ValueModel)>) -> Seq<Seq<char>> {
    changes.map_values(|c: (Seq<char>, ValueModel)| c.0)
}

/// The new values of changes, in their order.
pub open spec fn changed_values(changes: Seq<(Seq<char>, ValueModel)>) -> Seq<ValueModel> {
    changes.map_values(|c: (Seq<char>, ValueModel)| c.1)
}

/// What an `UPDATE` of a record's table holds that makes the changes on the
/// rows that `filter` selects.
pub open spec fn update_query<E: Entity>(
    filter: Seq<char>,
    changes: Seq<(Seq<char>, ValueModel)>,
) -> UpdateQuery {
    UpdateQuery { filter: Some(filter), columns: changed_columns(changes), ..update_seed::<E>() }
}

/// The `UPDATE` of a record's table that makes the changes on the rows that
/// `filter` selects, written out, with its arguments.
pub open spec fn update_of<E: Entity>(
    filter: Seq<char>,
    changes: Seq<(Seq<char>, ValueModel)>,
) -> (Seq<char>, Seq<ValueModel>) {
    (update_query::<E>(filter, changes).direct(), changed_values(changes))
}

/// The statement that sets each changed column to its new value on the rows
/// that `filter` selects, with the new values as its arguments in the order
/// of the changes. Without a change there is nothing to do. Where the names
/// of the columns have all their dollar signs bound, it is the statement
/// written out.
pub fn update_statement<E: Updatable>(filter: &str, changes: &Vec<(String, Value)>) -> (r: Option<
    Statement,
>)
    ensures
        changes.len() == 0 ==> r is None,
        changes.len() > 0 ==> r is Some && r->0@.1 == changed_values(cells_of(changes@))
            && update_query::<E>(filter@, cells_of(changes@)).sql() == Ok::<Seq<char>, Seq<char>>(
            r->0@.0,
        ),
        changes.len() > 0 && all_bound(changed_columns(cells_of(changes@))) ==> r->0@
            == update_of::<E>(filter@, cells_of(changes@)),
{
    if changes.len() == 0 {
        return None;
    }
    let ghost all = cells_of(changes@);
    let mut b = E::update_builder().filter(filter);
    let mut args: Vec<Value> = Vec::new();
    let mut i: usize = 0;
    proof {
        assert(b@.columns =~= changed_columns(all).take(0));
        assert(values_of(args@) =~= changed_values(all).take(0));
    }
    while i < changes.len()
        invariant
            i <= changes.len(),
            all == cells_of(changes@),
            b@ == (UpdateQuery {
                filter: Some(filter@),
                columns: changed_columns(all).take(i as int),
                ..update_seed::<E>()
            }),
            values_of(args@) == changed_values(all).take(i as int),
        decreases changes.len() - i,
    {
        let ghost columns = b@.columns;
        let ghost values = values_of(args@);
        b = b.set(changes[i].0.as_str());
        args.push(copy_value(&changes[i].1));
        i += 1;
        proof {
            assert(b@.columns =~= changed_columns(all).take(i as int));
            assert(values_of(args@) =~= values.push(all[i - 1].1));
            assert(values_of(args@) =~= changed_values(all).take(i as int));
        }
    }
    proof {
        assert(changed_columns(all).take(changes.len() as int) =~= changed_columns(all));
        assert(changed_values(all).take(changes.len() as int) =~= changed_values(all));
    }
    let sql = build_update::<E>(b);
    Some(Statement { sql, args })
}

} // verus!
