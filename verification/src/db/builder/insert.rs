//! `INSERT` statements.

use super::{
    column_list, join_columns, join_placeholders, placeholder_list, substitute, substituted,
    then_substitute, then_substituted, NoSuchPatternError, QueryBuilder,
};
use crate::occurrence::{
    lemma_hole_once, once,
    differ_at, flat, inert, is_name, lemma_fill_hole, lemma_flat_7, lemma_flat_holds, lemma_foreign,
    lemma_joined_absent, lemma_name_clear, lemma_name_distinct_head, lemma_plain_clear,
    lemma_replace_keeps, lemma_tail_foreign, no_dollar,
};
use crate::text::{contains, opt_str, opt_text, replace_all, texts};
use vstd::prelude::*;
use vstd::string::*;

verus! {

/// Builds `INSERT INTO <table> (<c1,c2,...>) VALUES ($1,$2,...);`. The
/// placeholders are numbered from 1 in the order in which the columns were
/// set: the arguments handed over with the statement follow that order.
pub struct InsertQueryBuilder {
    template: String,
    table: Option<String>,
    columns: Vec<String>,
}

/// What an [`InsertQueryBuilder`] holds.
pub struct InsertQuery {
    pub template: Seq<char>,
    pub table: Option<Seq<char>>,
    pub columns: Seq<Seq<char>>,
}

impl InsertQuery {
    /// The template of a fresh builder.
    pub open spec fn default_template() -> Seq<char> {
        "INSERT INTO $table ($columns) VALUES ($placeholders);"@
    }

    /// A fresh builder on `template`.
    pub open spec fn fresh(template: Seq<char>) -> InsertQuery {
        InsertQuery { template, table: None, columns: Seq::empty() }
    }

    /// The statement, by replacing the placeholders one after the other.
    /// Without a table there is none.
    pub open spec fn sql(self) -> Result<Seq<char>, Seq<char>> {
        if self.table is None {
            Err("$table"@)
        } else {
            then_substituted(
                then_substituted(
                    substituted(self.template, "$table"@, self.table),
                    "$columns"@,
                    Some(column_list(self.columns)),
                ),
                "$placeholders"@,
                Some(placeholder_list(self.columns.len())),
            )
        }
    }

    /// There is a table, and neither the table nor a column holds what a
    /// later replacement would take for a placeholder.
    pub open spec fn plain(self) -> bool {
        &&& self.table is Some
        &&& !contains(self.table->0, "$columns"@)
        &&& !contains(self.table->0, "$placeholders"@)
        &&& forall|i: int|
            0 <= i < self.columns.len() ==> !contains(#[trigger] self.columns[i], "$placeholders"@)
    }

    /// The statement of the default template, written out.
    pub open spec fn direct(self) -> Seq<char> {
        "INSERT INTO "@ + self.table->0 + " ("@ + column_list(self.columns) + ") VALUES ("@
            + placeholder_list(self.columns.len()) + ");"@
    }
}

impl View for InsertQueryBuilder {
    type V = InsertQuery;

    closed spec fn view(&self) -> InsertQuery {
        InsertQuery {
            template: self.template@,
            table: opt_text(self.table),
            columns: texts(self.columns@),
        }
    }
}

impl InsertQueryBuilder {
    /// Adds a column. Its value is the argument with the column's number.
    pub fn set(self, column: &str) -> (b: Self)
        ensures
            b@ == (InsertQuery { columns: self@.columns.push(column@), ..self@ }),
    {
        let mut b = self;
        b.columns.push(column.to_owned());
        proof {
            assert(texts(b.columns@) =~= texts(self.columns@).push(column@));
        }
        b
    }

    /// Sets the table to insert into.
    pub fn table(self, table: &str) -> (b: Self)
        ensures
            b@ == (InsertQuery { table: Some(table@), ..self@ }),
    {
        let mut b = self;
        b.table = Some(table.to_owned());
        b
    }
}

impl QueryBuilder for InsertQueryBuilder {
    open spec fn rendered(&self) -> Result<Seq<char>, Seq<char>> {
        self@.sql()
    }

    open spec fn template(&self) -> Seq<char> {
        self@.template
    }

    open spec fn default_template() -> Seq<char> {
        InsertQuery::default_template()
    }

    fn default() -> (b: Self)
        ensures
            b@ == InsertQuery::fresh(InsertQuery::default_template()),
    {
        let b = InsertQueryBuilder {
            template: String::from_str("INSERT INTO $table ($columns) VALUES ($placeholders);"),
            table: None,
            columns: Vec::new(),
        };
        proof {
            assert(texts(b.columns@) =~= Seq::<Seq<char>>::empty());
        }
        b
    }

    fn with_template(template: &str) -> (b: Self)
        ensures
            b@ == InsertQuery::fresh(template@),
    {
        let mut builder = Self::default();
        builder.template = template.to_owned();
        builder
    }

    fn build(self) -> (sql: String) {
        match self.try_build() {
            Ok(sql) => sql,
            Err(_) => vstd::pervasive::unreached(),
        }
    }

    fn try_build(self) -> (r: Result<String, NoSuchPatternError>) {
        if self.table.is_none() {
            return Err(NoSuchPatternError { pattern: String::from_str("$table") });
        }
        let columns = join_columns(&self.columns);
        let placeholders = join_placeholders(self.columns.len());
        let first = substitute(self.template.as_str(), "$table", opt_str(&self.table));
        let second = then_substitute(first, "$columns", Some(columns.as_str()));
        then_substitute(second, "$placeholders", Some(placeholders.as_str()))
    }
}

/// The pieces of the default template, with what stands for the table, the
/// columns and the placeholders.
pub open spec fn insert_pieces(table: Seq<char>, columns: Seq<char>, holders: Seq<char>) -> Seq<
    Seq<char>,
> {
    seq!["INSERT INTO "@, table, " ("@, columns, ") VALUES ("@, holders, ");"@]
}

/// What the pieces of the default template are made of.
proof fn lemma_insert_literals()
    ensures
        InsertQuery::default_template() == flat(
            insert_pieces("$table"@, "$columns"@, "$placeholders"@),
        ),
        no_dollar("INSERT INTO "@),
        no_dollar(" ("@),
        no_dollar(") VALUES ("@),
        no_dollar(");"@),
        " ("@.len() > 0,
        " ("@[0] == ' ',
        ") VALUES ("@.len() > 0,
        ") VALUES ("@[0] == ')',
        is_name("$table"@),
        is_name("$columns"@),
        is_name("$placeholders"@),
        differ_at("$columns"@, "$table"@, 1),
        differ_at("$placeholders"@, "$table"@, 1),
        differ_at("$placeholders"@, "$columns"@, 1),
{
    reveal_strlit("INSERT INTO $table ($columns) VALUES ($placeholders);");
    reveal_strlit("INSERT INTO ");
    reveal_strlit("$table");
    reveal_strlit(" (");
    reveal_strlit("$columns");
    reveal_strlit(") VALUES (");
    reveal_strlit("$placeholders");
    reveal_strlit(");");
    lemma_flat_7(
        "INSERT INTO "@,
        "$table"@,
        " ("@,
        "$columns"@,
        ") VALUES ("@,
        "$placeholders"@,
        ");"@,
    );
    assert(InsertQuery::default_template() =~= "INSERT INTO "@ + "$table"@ + " ("@ + "$columns"@
        + ") VALUES ("@ + "$placeholders"@ + ");"@);
}

/// The first replacement puts the table in its place.
proof fn lemma_insert_table(t: Seq<char>)
    ensures
        substituted(InsertQuery::default_template(), "$table"@, Some(t)) == Ok::<
            Seq<char>,
            Seq<char>,
        >(flat(insert_pieces(t, "$columns"@, "$placeholders"@))),
{
    lemma_insert_literals();
    let p = "$table"@;
    let s = insert_pieces(p, "$columns"@, "$placeholders"@);
    lemma_name_distinct_head(p);
    lemma_plain_clear("INSERT INTO "@, p);
    lemma_plain_clear(" ("@, p);
    lemma_plain_clear(") VALUES ("@, p);
    lemma_plain_clear(");"@, p);
    lemma_name_clear("$columns"@, p, 1);
    lemma_name_clear("$placeholders"@, p, 1);
    assert(inert(s, 0, p));
    assert(inert(s, 2, p));
    assert(inert(s, 3, p));
    assert(inert(s, 4, p));
    assert(inert(s, 5, p));
    assert(inert(s, 6, p));
    lemma_fill_hole(s, 1, t);
    assert(s.update(1, t) =~= insert_pieces(t, "$columns"@, "$placeholders"@));
}

/// The second replacement puts the columns in their place.
proof fn lemma_insert_columns(t: Seq<char>, c: Seq<char>)
    requires
        !contains(t, "$columns"@),
    ensures
        contains(flat(insert_pieces(t, "$columns"@, "$placeholders"@)), "$columns"@),
        replace_all(flat(insert_pieces(t, "$columns"@, "$placeholders"@)), "$columns"@, c) == flat(
            insert_pieces(t, c, "$placeholders"@),
        ),
{
    lemma_insert_literals();
    let p = "$columns"@;
    let s = insert_pieces(t, p, "$placeholders"@);
    lemma_name_distinct_head(p);
    lemma_plain_clear("INSERT INTO "@, p);
    lemma_plain_clear(" ("@, p);
    lemma_plain_clear(") VALUES ("@, p);
    lemma_plain_clear(");"@, p);
    lemma_name_clear("$placeholders"@, p, 1);
    lemma_tail_foreign(' ', p);
    assert(inert(s, 0, p));
    assert(inert(s, 1, p));
    assert(inert(s, 2, p));
    assert(inert(s, 4, p));
    assert(inert(s, 5, p));
    assert(inert(s, 6, p));
    lemma_fill_hole(s, 3, c);
    assert(s.update(3, c) =~= insert_pieces(t, c, "$placeholders"@));
}

/// The third replacement puts the placeholders in their place.
proof fn lemma_insert_holders(t: Seq<char>, c: Seq<char>, h: Seq<char>)
    requires
        !contains(t, "$placeholders"@),
        !contains(c, "$placeholders"@),
    ensures
        contains(flat(insert_pieces(t, c, "$placeholders"@)), "$placeholders"@),
        replace_all(flat(insert_pieces(t, c, "$placeholders"@)), "$placeholders"@, h) == flat(
            insert_pieces(t, c, h),
        ),
{
    lemma_insert_literals();
    let p = "$placeholders"@;
    let s = insert_pieces(t, c, p);
    lemma_name_distinct_head(p);
    lemma_plain_clear("INSERT INTO "@, p);
    lemma_plain_clear(" ("@, p);
    lemma_plain_clear(") VALUES ("@, p);
    lemma_plain_clear(");"@, p);
    lemma_tail_foreign(' ', p);
    lemma_tail_foreign(')', p);
    assert(inert(s, 0, p));
    assert(inert(s, 1, p));
    assert(inert(s, 2, p));
    assert(inert(s, 3, p));
    assert(inert(s, 4, p));
    assert(inert(s, 6, p));
    lemma_fill_hole(s, 5, h);
    assert(s.update(5, h) =~= insert_pieces(t, c, h));
}

/// On the default template, with a table and columns that hold no later
/// placeholder, the statement is
/// `INSERT INTO <table> (<c1,c2,...>) VALUES ($1,$2,...);`: the columns in
/// the order in which they were set, and as many placeholders as columns,
/// numbered from 1. Without columns both lists are empty.
pub proof fn lemma_insert_sql(q: InsertQuery)
    requires
        q.template == InsertQuery::default_template(),
        q.plain(),
    ensures
        q.sql() == Ok::<Seq<char>, Seq<char>>(q.direct()),
{
    let t = q.table->0;
    let c = column_list(q.columns);
    let h = placeholder_list(q.columns.len());
    lemma_insert_literals();
    lemma_foreign(',', "$placeholders"@);
    lemma_joined_absent(q.columns, ',', "$placeholders"@);
    lemma_insert_table(t);
    lemma_insert_columns(t, c);
    lemma_insert_holders(t, c, h);
    lemma_flat_7("INSERT INTO "@, t, " ("@, c, ") VALUES ("@, h, ");"@);
}

/// On the default template, a statement can be built if and only if it has
/// a table, whatever the table and the columns hold.
pub proof fn lemma_insert_builds(q: InsertQuery)
    requires
        q.template == InsertQuery::default_template(),
    ensures
        q.sql() is Ok <==> q.table is Some,
{
    if q.table is Some {
        lemma_insert_literals();
        let s = insert_pieces("$table"@, "$columns"@, "$placeholders"@);
        lemma_flat_holds(s, 1);
        lemma_flat_holds(s, 3);
        lemma_flat_holds(s, 5);
        lemma_name_clear("$columns"@, "$table"@, 1);
        lemma_name_clear("$placeholders"@, "$table"@, 1);
        lemma_name_clear("$placeholders"@, "$columns"@, 1);
        let t1 = replace_all(q.template, "$table"@, q.table->0);
        lemma_replace_keeps(q.template, "$columns"@, "$table"@, q.table->0);
        lemma_replace_keeps(q.template, "$placeholders"@, "$table"@, q.table->0);
        lemma_replace_keeps(t1, "$placeholders"@, "$columns"@, column_list(q.columns));
    }
}

/// Each placeholder occurs in the default template exactly once.
pub proof fn lemma_insert_template()
    ensures
        once(InsertQuery::default_template(), "$table"@),
        once(InsertQuery::default_template(), "$columns"@),
        once(InsertQuery::default_template(), "$placeholders"@),
{
    lemma_insert_literals();
    let a = "$table"@;
    let b = "$columns"@;
    let c = "$placeholders"@;
    let s = insert_pieces(a, b, c);
    lemma_name_distinct_head(a);
    lemma_name_distinct_head(b);
    lemma_name_distinct_head(c);
    lemma_name_clear(a, b, 1);
    lemma_name_clear(a, c, 1);
    lemma_name_clear(b, a, 1);
    lemma_name_clear(b, c, 1);
    lemma_name_clear(c, a, 1);
    lemma_name_clear(c, b, 1);
    lemma_plain_clear("INSERT INTO "@, a);
    lemma_plain_clear(" ("@, a);
    lemma_plain_clear(") VALUES ("@, a);
    lemma_plain_clear(");"@, a);
    lemma_plain_clear("INSERT INTO "@, b);
    lemma_plain_clear(" ("@, b);
    lemma_plain_clear(") VALUES ("@, b);
    lemma_plain_clear(");"@, b);
    lemma_plain_clear("INSERT INTO "@, c);
    lemma_plain_clear(" ("@, c);
    lemma_plain_clear(") VALUES ("@, c);
    lemma_plain_clear(");"@, c);
    assert(inert(s, 0, a) && inert(s, 2, a) && inert(s, 3, a));
    assert(inert(s, 4, a) && inert(s, 5, a) && inert(s, 6, a));
    lemma_hole_once(s, 1);
    assert(inert(s, 0, b) && inert(s, 1, b) && inert(s, 2, b));
    assert(inert(s, 4, b) && inert(s, 5, b) && inert(s, 6, b));
    lemma_hole_once(s, 3);
    assert(inert(s, 0, c) && inert(s, 1, c) && inert(s, 2, c));
    assert(inert(s, 3, c) && inert(s, 4, c) && inert(s, 6, c));
    lemma_hole_once(s, 5);
}

} // verus!
