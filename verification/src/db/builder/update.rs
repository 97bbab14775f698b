//! `UPDATE` statements.

use super::{
    assignment_list, clause, join_assignments, keyword_clause, placeholder, shown, substitute,
    substituted, then_substitute, then_substituted, NoSuchPatternError, QueryBuilder,
};
use crate::occurrence::{
    lemma_hole_once, once,
    differ_at, flat, inert, is_name, lemma_absent_then_clear, lemma_binding_clear, lemma_fill_hole,
    lemma_flat_7, lemma_flat_holds, lemma_foreign, lemma_joined_absent, lemma_name_clear,
    lemma_name_distinct_head, lemma_plain_clear, lemma_replace_keeps, lemma_tail_foreign, no_dollar,
};
use crate::text::{contains, digits, opt_str, opt_text, replace_all, texts};
use vstd::prelude::*;
use vstd::string::*;

verus! {

/// Builds `UPDATE <table> SET <c1=$1,c2=$2,...> [WHERE <filter>];`. The
/// placeholders are numbered from 1 in the order in which the columns were
/// set. The filter is put in as it is given.
pub struct UpdateQueryBuilder {
    template: String,
    where_clause: Option<String>,
    table: Option<String>,
    columns: Vec<String>,
}

/// What an [`UpdateQueryBuilder`] holds.
pub struct UpdateQuery {
    pub template: Seq<char>,
    pub filter: Option<Seq<char>>,
    pub table: Option<Seq<char>>,
    pub columns: Seq<Seq<char>>,
}

impl UpdateQuery {
    /// The template of a fresh builder.
    pub open spec fn default_template() -> Seq<char> {
        "UPDATE $table SET $columns $where_clause;"@
    }

    /// A fresh builder on `template`.
    pub open spec fn fresh(template: Seq<char>) -> UpdateQuery {
        UpdateQuery { template, filter: None, table: None, columns: Seq::empty() }
    }

    /// The statement, by replacing the placeholders one after the other.
    /// Without a table there is none.
    pub open spec fn sql(self) -> Result<Seq<char>, Seq<char>> {
        if self.table is None {
            Err("$table"@)
        } else {
            then_substituted(
                then_substituted(
                    substituted(self.template, "$table"@, self.table),
                    "$columns"@,
                    Some(assignment_list(self.columns)),
                ),
                "$where_clause"@,
                clause("WHERE "@, self.filter),
            )
        }
    }

    /// There is a table, and neither the table nor a column holds what a
    /// later replacement would take for a placeholder.
    pub open spec fn plain(self) -> bool {
        &&& self.table is Some
        &&& !contains(self.table->0, "$columns"@)
        &&& !contains(self.table->0, "$where_clause"@)
        &&& forall|i: int|
            0 <= i < self.columns.len() ==> !contains(#[trigger] self.columns[i], "$where_clause"@)
    }

    /// The statement of the default template, written out.
    pub open spec fn direct(self) -> Seq<char> {
        "UPDATE "@ + self.table->0 + " SET "@ + assignment_list(self.columns) + " "@ + shown(
            clause("WHERE "@, self.filter),
        ) + ";"@
    }
}

impl View for UpdateQueryBuilder {
    type V = UpdateQuery;

    closed spec fn view(&self) -> UpdateQuery {
        UpdateQuery {
            template: self.template@,
            filter: opt_text(self.where_clause),
            table: opt_text(self.table),
            columns: texts(self.columns@),
        }
    }
}

impl UpdateQueryBuilder {
    /// Adds a column. Its new value is the argument with the column's number.
    pub fn set(self, column: &str) -> (b: Self)
        ensures
            b@ == (UpdateQuery { columns: self@.columns.push(column@), ..self@ }),
    {
        let mut b = self;
        b.columns.push(column.to_owned());
        proof {
            assert(texts(b.columns@) =~= texts(self.columns@).push(column@));
        }
        b
    }

    /// Sets the table to update.
    pub fn table(self, table: &str) -> (b: Self)
        ensures
            b@ == (UpdateQuery { table: Some(table@), ..self@ }),
    {
        let mut b = self;
        b.table = Some(table.to_owned());
        b
    }

    /// Sets the condition of the `WHERE` clause.
    pub fn filter(self, where_clause: &str) -> (b: Self)
        ensures
            b@ == (UpdateQuery { filter: Some(where_clause@), ..self@ }),
    {
        let mut b = self;
        b.where_clause = Some(where_clause.to_owned());
        b
    }
}

impl QueryBuilder for UpdateQueryBuilder {
    open spec fn rendered(&self) -> Result<Seq<char>, Seq<char>> {
        self@.sql()
    }

    open spec fn template(&self) -> Seq<char> {
        self@.template
    }

    open spec fn default_template() -> Seq<char> {
        UpdateQuery::default_template()
    }

    fn default() -> (b: Self)
        ensures
            b@ == UpdateQuery::fresh(UpdateQuery::default_template()),
    {
        let b = UpdateQueryBuilder {
            template: String::from_str("UPDATE $table SET $columns $where_clause;"),
            where_clause: None,
            table: None,
            columns: Vec::new(),
        };
        proof {
            assert(texts(b.columns@) =~= Seq::<Seq<char>>::empty());
        }
        b
    }

    fn with_template(template: &str) -> (b: Self)
        ensures
            b@ == UpdateQuery::fresh(template@),
    {
        let mut builder = Self::default();
        builder.template = template.to_owned();
        builder
    }

    fn build(self) -> (sql: String) {
        match self.try_build() {
            Ok(sql) => sql,
            Err(_) => vstd::pervasive::unreached(),
        }
    }

    fn try_build(self) -> (r: Result<String, NoSuchPatternError>) {
        if self.table.is_none() {
            return Err(NoSuchPatternError { pattern: String::from_str("$table") });
        }
        let where_clause = keyword_clause("WHERE ", &self.where_clause);
        let columns = join_assignments(&self.columns);
        let first = substitute(self.template.as_str(), "$table", opt_str(&self.table));
        let second = then_substitute(first, "$columns", Some(columns.as_str()));
        then_substitute(second, "$where_clause", opt_str(&where_clause))
    }
}

/// The pieces of the default template, with what stands for the table, the
/// assignments and the condition.
pub open spec fn update_pieces(table: Seq<char>, columns: Seq<char>, condition: Seq<char>) -> Seq<
    Seq<char>,
> {
    seq!["UPDATE "@, table, " SET "@, columns, " "@, condition, ";"@]
}

/// What the pieces of the default template are made of.
proof fn lemma_update_literals()
    ensures
        UpdateQuery::default_template() == flat(
            update_pieces("$table"@, "$columns"@, "$where_clause"@),
        ),
        no_dollar("UPDATE "@),
        no_dollar(" SET "@),
        no_dollar(" "@),
        no_dollar(";"@),
        " SET "@.len() > 0,
        " SET "@[0] == ' ',
        " "@.len() > 0,
        " "@[0] == ' ',
        is_name("$table"@),
        is_name("$columns"@),
        is_name("$where_clause"@),
        differ_at("$columns"@, "$table"@, 1),
        differ_at("$where_clause"@, "$table"@, 1),
        differ_at("$where_clause"@, "$columns"@, 1),
{
    reveal_strlit("UPDATE $table SET $columns $where_clause;");
    reveal_strlit("UPDATE ");
    reveal_strlit("$table");
    reveal_strlit(" SET ");
    reveal_strlit("$columns");
    reveal_strlit(" ");
    reveal_strlit("$where_clause");
    reveal_strlit(";");
    lemma_flat_7("UPDATE "@, "$table"@, " SET "@, "$columns"@, " "@, "$where_clause"@, ";"@);
    assert(UpdateQuery::default_template() =~= "UPDATE "@ + "$table"@ + " SET "@ + "$columns"@
        + " "@ + "$where_clause"@ + ";"@);
}

/// Pairs `column=$k` of columns without `p` make a list without `p`.
proof fn lemma_assignments_absent(columns: Seq<Seq<char>>, p: Seq<char>)
    requires
        is_name(p),
        forall|i: int| 0 <= i < columns.len() ==> !contains(#[trigger] columns[i], p),
    ensures
        !contains(assignment_list(columns), p),
{
    let parts = Seq::new(
        columns.len(),
        |i: int| columns[i] + seq!['='] + placeholder((i + 1) as nat),
    );
    lemma_foreign(',', p);
    lemma_tail_foreign('=', p);
    assert forall|i: int| 0 <= i < parts.len() implies !contains(#[trigger] parts[i], p) by {
        let k = (i + 1) as nat;
        let x = seq!['=', '$'] + digits(k);
        lemma_binding_clear(k, p);
        assert(!contains(columns[i], p));
        lemma_absent_then_clear(columns[i], x, p);
        assert(parts[i] =~= columns[i] + x);
    }
    lemma_joined_absent(parts, ',', p);
}

/// The first replacement puts the table in its place.
proof fn lemma_update_table(t: Seq<char>)
    ensures
        substituted(UpdateQuery::default_template(), "$table"@, Some(t)) == Ok::<
            Seq<char>,
            Seq<char>,
        >(flat(update_pieces(t, "$columns"@, "$where_clause"@))),
{
    lemma_update_literals();
    let p = "$table"@;
    let s = update_pieces(p, "$columns"@, "$where_clause"@);
    lemma_name_distinct_head(p);
    lemma_plain_clear("UPDATE "@, p);
    lemma_plain_clear(" SET "@, p);
    lemma_plain_clear(" "@, p);
    lemma_plain_clear(";"@, p);
    lemma_name_clear("$columns"@, p, 1);
    lemma_name_clear("$where_clause"@, p, 1);
    assert(inert(s, 0, p));
    assert(inert(s, 2, p));
    assert(inert(s, 3, p));
    assert(inert(s, 4, p));
    assert(inert(s, 5, p));
    assert(inert(s, 6, p));
    lemma_fill_hole(s, 1, t);
    assert(s.update(1, t) =~= update_pieces(t, "$columns"@, "$where_clause"@));
}

/// The second replacement puts the assignments in their place.
proof fn lemma_update_columns(t: Seq<char>, c: Seq<char>)
    requires
        !contains(t, "$columns"@),
    ensures
        contains(flat(update_pieces(t, "$columns"@, "$where_clause"@)), "$columns"@),
        replace_all(flat(update_pieces(t, "$columns"@, "$where_clause"@)), "$columns"@, c) == flat(
            update_pieces(t, c, "$where_clause"@),
        ),
{
    lemma_update_literals();
    let p = "$columns"@;
    let s = update_pieces(t, p, "$where_clause"@);
    lemma_name_distinct_head(p);
    lemma_plain_clear("UPDATE "@, p);
    lemma_plain_clear(" SET "@, p);
    lemma_plain_clear(" "@, p);
    lemma_plain_clear(";"@, p);
    lemma_name_clear("$where_clause"@, p, 1);
    lemma_tail_foreign(' ', p);
    assert(inert(s, 0, p));
    assert(inert(s, 1, p));
    assert(inert(s, 2, p));
    assert(inert(s, 4, p));
    assert(inert(s, 5, p));
    assert(inert(s, 6, p));
    lemma_fill_hole(s, 3, c);
    assert(s.update(3, c) =~= update_pieces(t, c, "$where_clause"@));
}

/// The third replacement puts the condition in its place.
proof fn lemma_update_condition(t: Seq<char>, c: Seq<char>, w: Seq<char>)
    requires
        !contains(t, "$where_clause"@),
        !contains(c, "$where_clause"@),
    ensures
        contains(flat(update_pieces(t, c, "$where_clause"@)), "$where_clause"@),
        replace_all(flat(update_pieces(t, c, "$where_clause"@)), "$where_clause"@, w) == flat(
            update_pieces(t, c, w),
        ),
{
    lemma_update_literals();
    let p = "$where_clause"@;
    let s = update_pieces(t, c, p);
    lemma_name_distinct_head(p);
    lemma_plain_clear("UPDATE "@, p);
    lemma_plain_clear(" SET "@, p);
    lemma_plain_clear(" "@, p);
    lemma_plain_clear(";"@, p);
    lemma_tail_foreign(' ', p);
    assert(inert(s, 0, p));
    assert(inert(s, 1, p));
    assert(inert(s, 2, p));
    assert(inert(s, 3, p));
    assert(inert(s, 4, p));
    assert(inert(s, 6, p));
    lemma_fill_hole(s, 5, w);
    assert(s.update(5, w) =~= update_pieces(t, c, w));
}

/// On the default template, with a table and columns that hold no later
/// placeholder, the statement is
/// `UPDATE <table> SET <c1=$1,c2=$2,...> [WHERE <filter>];`: an absent filter
/// leaves nothing but the blank that stood before its placeholder.
pub proof fn lemma_update_sql(q: UpdateQuery)
    requires
        q.template == UpdateQuery::default_template(),
        q.plain(),
    ensures
        q.sql() == Ok::<Seq<char>, Seq<char>>(q.direct()),
{
    let t = q.table->0;
    let c = assignment_list(q.columns);
    let w = shown(clause("WHERE "@, q.filter));
    lemma_update_literals();
    lemma_assignments_absent(q.columns, "$where_clause"@);
    lemma_update_table(t);
    lemma_update_columns(t, c);
    lemma_update_condition(t, c, w);
    lemma_flat_7("UPDATE "@, t, " SET "@, c, " "@, w, ";"@);
}

/// On the default template, a statement can be built if and only if it has
/// a table, whatever the table, the columns and the filter hold.
pub proof fn lemma_update_builds(q: UpdateQuery)
    requires
        q.template == UpdateQuery::default_template(),
    ensures
        q.sql() is Ok <==> q.table is Some,
{
    if q.table is Some {
        lemma_update_literals();
        let s = update_pieces("$table"@, "$columns"@, "$where_clause"@);
        lemma_flat_holds(s, 1);
        lemma_flat_holds(s, 3);
        lemma_flat_holds(s, 5);
        lemma_name_clear("$columns"@, "$table"@, 1);
        lemma_name_clear("$where_clause"@, "$table"@, 1);
        lemma_name_clear("$where_clause"@, "$columns"@, 1);
        let t1 = replace_all(q.template, "$table"@, q.table->0);
        lemma_replace_keeps(q.template, "$columns"@, "$table"@, q.table->0);
        lemma_replace_keeps(q.template, "$where_clause"@, "$table"@, q.table->0);
        lemma_replace_keeps(t1, "$where_clause"@, "$columns"@, assignment_list(q.columns));
    }
}

/// Each placeholder occurs in the default template exactly once.
pub proof fn lemma_update_template()
    ensures
        once(UpdateQuery::default_template(), "$table"@),
        once(UpdateQuery::default_template(), "$columns"@),
        once(UpdateQuery::default_template(), "$where_clause"@),
{
    lemma_update_literals();
    let a = "$table"@;
    let b = "$columns"@;
    let c = "$where_clause"@;
    let s = update_pieces(a, b, c);
    lemma_name_distinct_head(a);
    lemma_name_distinct_head(b);
    lemma_name_distinct_head(c);
    lemma_name_clear(a, b, 1);
    lemma_name_clear(a, c, 1);
    lemma_name_clear(b, a, 1);
    lemma_name_clear(b, c, 1);
    lemma_name_clear(c, a, 1);
    lemma_name_clear(c, b, 1);
    lemma_plain_clear("UPDATE "@, a);
    lemma_plain_clear(" SET "@, a);
    lemma_plain_clear(" "@, a);
    lemma_plain_clear(";"@, a);
    lemma_plain_clear("UPDATE "@, b);
    lemma_plain_clear(" SET "@, b);
    lemma_plain_clear(" "@, b);
    lemma_plain_clear(";"@, b);
    lemma_plain_clear("UPDATE "@, c);
    lemma_plain_clear(" SET "@, c);
    lemma_plain_clear(" "@, c);
    lemma_plain_clear(";"@, c);
    assert(inert(s, 0, a) && inert(s, 2, a) && inert(s, 3, a));
    assert(inert(s, 4, a) && inert(s, 5, a) && inert(s, 6, a));
    lemma_hole_once(s, 1);
    assert(inert(s, 0, b) && inert(s, 1, b) && inert(s, 2, b));
    assert(inert(s, 4, b) && inert(s, 5, b) && inert(s, 6, b));
    lemma_hole_once(s, 3);
    assert(inert(s, 0, c) && inert(s, 1, c) && inert(s, 2, c));
    assert(inert(s, 3, c) && inert(s, 4, c) && inert(s, 6, c));
    lemma_hole_once(s, 5);
}

} // verus!
