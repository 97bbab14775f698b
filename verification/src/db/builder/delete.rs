//! `DELETE` statements.

use super::{
    clause, keyword_clause, shown, substitute, substituted, then_substitute, then_substituted,
    NoSuchPatternError, QueryBuilder,
};
use crate::occurrence::{
    lemma_hole_once, once,
    differ_at, flat, inert, is_name, lemma_fill_hole, lemma_flat_5, lemma_flat_holds,
    lemma_name_clear, lemma_name_distinct_head, lemma_plain_clear, lemma_replace_keeps,
    lemma_tail_foreign, no_dollar,
};
use crate::text::{contains, opt_str, opt_text, replace_all};
use vstd::prelude::*;
use vstd::string::*;

verus! {

/// Builds `DELETE FROM <tables> [WHERE <filter>];`.
pub struct DeleteQueryBuilder {
    template: String,
    from_tables: Option<String>,
    where_clause: Option<String>,
}

/// What a [`DeleteQueryBuilder`] holds.
pub struct DeleteQuery {
    pub template: Seq<char>,
    pub from_tables: Option<Seq<char>>,
    pub filter: Option<Seq<char>>,
}

impl DeleteQuery {
    /// The template of a fresh builder.
    pub open spec fn default_template() -> Seq<char> {
        "DELETE FROM $from_tables $where_clause;"@
    }

    /// A fresh builder on `template`.
    pub open spec fn fresh(template: Seq<char>) -> DeleteQuery {
        DeleteQuery { template, from_tables: None, filter: None }
    }

    /// The statement, by replacing the placeholders one after the other.
    /// Without tables there is none.
    pub open spec fn sql(self) -> Result<Seq<char>, Seq<char>> {
        if self.from_tables is None {
            Err("$from_tables"@)
        } else {
            then_substituted(
                substituted(self.template, "$from_tables"@, self.from_tables),
                "$where_clause"@,
                clause("WHERE "@, self.filter),
            )
        }
    }

    /// The tables hold nothing that a later replacement would take for a
    /// placeholder.
    pub open spec fn plain(self) -> bool {
        self.from_tables is Some && !contains(self.from_tables->0, "$where_clause"@)
    }

    /// The statement of the default template, written out.
    pub open spec fn direct(self) -> Seq<char> {
        "DELETE FROM "@ + shown(self.from_tables) + " "@ + shown(clause("WHERE "@, self.filter))
            + ";"@
    }
}

impl View for DeleteQueryBuilder {
    type V = DeleteQuery;

    closed spec fn view(&self) -> DeleteQuery {
        DeleteQuery {
            template: self.template@,
            from_tables: opt_text(self.from_tables),
            filter: opt_text(self.where_clause),
        }
    }
}

impl DeleteQueryBuilder {
    /// Sets the condition of the `WHERE` clause.
    pub fn filter(self, where_clause: &str) -> (b: Self)
        ensures
            b@ == (DeleteQuery { filter: Some(where_clause@), ..self@ }),
    {
        let mut b = self;
        b.where_clause = Some(where_clause.to_owned());
        b
    }

    /// Sets the tables to delete from.
    pub fn from_tables(self, tables: &str) -> (b: Self)
        ensures
            b@ == (DeleteQuery { from_tables: Some(tables@), ..self@ }),
    {
        let mut b = self;
        b.from_tables = Some(tables.to_owned());
        b
    }
}

impl QueryBuilder for DeleteQueryBuilder {
    open spec fn rendered(&self) -> Result<Seq<char>, Seq<char>> {
        self@.sql()
    }

    open spec fn template(&self) -> Seq<char> {
        self@.template
    }

    open spec fn default_template() -> Seq<char> {
        DeleteQuery::default_template()
    }

    fn default() -> (b: Self)
        ensures
            b@ == DeleteQuery::fresh(DeleteQuery::default_template()),
    {
        DeleteQueryBuilder {
            template: String::from_str("DELETE FROM $from_tables $where_clause;"),
            from_tables: None,
            where_clause: None,
        }
    }

    fn with_template(template: &str) -> (b: Self)
        ensures
            b@ == DeleteQuery::fresh(template@),
    {
        let mut builder = Self::default();
        builder.template = template.to_owned();
        builder
    }

    fn build(self) -> (sql: String) {
        match self.try_build() {
            Ok(sql) => sql,
            Err(_) => vstd::pervasive::unreached(),
        }
    }

    fn try_build(self) -> (r: Result<String, NoSuchPatternError>) {
        if self.from_tables.is_none() {
            return Err(NoSuchPatternError { pattern: String::from_str("$from_tables") });
        }
        let where_clause = keyword_clause("WHERE ", &self.where_clause);
        let first = substitute(self.template.as_str(), "$from_tables", opt_str(&self.from_tables));
        then_substitute(first, "$where_clause", opt_str(&where_clause))
    }
}

/// The pieces of the default template, with what stands for the tables and
/// for the condition.
pub open spec fn delete_pieces(tables: Seq<char>, condition: Seq<char>) -> Seq<Seq<char>> {
    seq!["DELETE FROM "@, tables, " "@, condition, ";"@]
}

/// What the pieces of the default template are made of.
proof fn lemma_delete_literals()
    ensures
        DeleteQuery::default_template() == flat(delete_pieces("$from_tables"@, "$where_clause"@)),
        no_dollar("DELETE FROM "@),
        no_dollar(" "@),
        no_dollar(";"@),
        " "@.len() == 1,
        " "@[0] == ' ',
        is_name("$from_tables"@),
        is_name("$where_clause"@),
        differ_at("$where_clause"@, "$from_tables"@, 1),
{
    reveal_strlit("DELETE FROM $from_tables $where_clause;");
    reveal_strlit("DELETE FROM ");
    reveal_strlit("$from_tables");
    reveal_strlit(" ");
    reveal_strlit("$where_clause");
    reveal_strlit(";");
    lemma_flat_5("DELETE FROM "@, "$from_tables"@, " "@, "$where_clause"@, ";"@);
    assert(DeleteQuery::default_template() =~= "DELETE FROM "@ + "$from_tables"@ + " "@
        + "$where_clause"@ + ";"@);
}

/// The first replacement puts the tables in their place.
proof fn lemma_delete_tables(t: Seq<char>)
    ensures
        substituted(DeleteQuery::default_template(), "$from_tables"@, Some(t)) == Ok::<
            Seq<char>,
            Seq<char>,
        >(flat(delete_pieces(t, "$where_clause"@))),
{
    lemma_delete_literals();
    let p = "$from_tables"@;
    let s = delete_pieces(p, "$where_clause"@);
    lemma_name_distinct_head(p);
    lemma_plain_clear("DELETE FROM "@, p);
    lemma_plain_clear(" "@, p);
    lemma_plain_clear(";"@, p);
    lemma_name_clear("$where_clause"@, p, 1);
    assert(inert(s, 0, p));
    assert(inert(s, 2, p));
    assert(inert(s, 3, p));
    assert(inert(s, 4, p));
    lemma_fill_hole(s, 1, t);
    assert(s.update(1, t) =~= delete_pieces(t, "$where_clause"@));
}

/// The second replacement puts the condition in its place.
proof fn lemma_delete_condition(t: Seq<char>, w: Seq<char>)
    requires
        !contains(t, "$where_clause"@),
    ensures
        contains(flat(delete_pieces(t, "$where_clause"@)), "$where_clause"@),
        replace_all(flat(delete_pieces(t, "$where_clause"@)), "$where_clause"@, w) == flat(
            delete_pieces(t, w),
        ),
{
    lemma_delete_literals();
    let p = "$where_clause"@;
    let s = delete_pieces(t, p);
    lemma_name_distinct_head(p);
    lemma_plain_clear("DELETE FROM "@, p);
    lemma_plain_clear(" "@, p);
    lemma_plain_clear(";"@, p);
    lemma_tail_foreign(' ', p);
    assert(inert(s, 0, p));
    assert(inert(s, 1, p));
    assert(inert(s, 2, p));
    assert(inert(s, 4, p));
    lemma_fill_hole(s, 3, w);
    assert(s.update(3, w) =~= delete_pieces(t, w));
}

/// On the default template, with tables that hold no `$where_clause`, the
/// statement is `DELETE FROM <tables> [WHERE <filter>];`: an absent filter
/// leaves nothing but the blank that stood before its placeholder.
pub proof fn lemma_delete_sql(q: DeleteQuery)
    requires
        q.template == DeleteQuery::default_template(),
        q.plain(),
    ensures
        q.sql() == Ok::<Seq<char>, Seq<char>>(q.direct()),
{
    let t = q.from_tables->0;
    let w = shown(clause("WHERE "@, q.filter));
    lemma_delete_tables(t);
    lemma_delete_condition(t, w);
    lemma_flat_5("DELETE FROM "@, t, " "@, w, ";"@);
}

/// On the default template, a statement can be built if and only if it has
/// tables, whatever the tables and the filter hold.
pub proof fn lemma_delete_builds(q: DeleteQuery)
    requires
        q.template == DeleteQuery::default_template(),
    ensures
        q.sql() is Ok <==> q.from_tables is Some,
{
    if q.from_tables is Some {
        lemma_delete_literals();
        let s = delete_pieces("$from_tables"@, "$where_clause"@);
        lemma_flat_holds(s, 1);
        lemma_flat_holds(s, 3);
        lemma_name_clear("$where_clause"@, "$from_tables"@, 1);
        lemma_replace_keeps(q.template, "$where_clause"@, "$from_tables"@, q.from_tables->0);
    }
}

/// Each placeholder occurs in the default template exactly once.
pub proof fn lemma_delete_template()
    ensures
        once(DeleteQuery::default_template(), "$from_tables"@),
        once(DeleteQuery::default_template(), "$where_clause"@),
{
    lemma_delete_literals();
    let from = "$from_tables"@;
    let wher = "$where_clause"@;
    let s = delete_pieces(from, wher);
    lemma_name_distinct_head(from);
    lemma_name_distinct_head(wher);
    lemma_plain_clear("DELETE FROM "@, from);
    lemma_plain_clear(" "@, from);
    lemma_plain_clear(";"@, from);
    lemma_plain_clear("DELETE FROM "@, wher);
    lemma_plain_clear(" "@, wher);
    lemma_plain_clear(";"@, wher);
    lemma_name_clear(wher, from, 1);
    lemma_name_clear(from, wher, 1);
    assert(inert(s, 0, from) && inert(s, 2, from) && inert(s, 3, from) && inert(s, 4, from));
    assert(inert(s, 0, wher) && inert(s, 1, wher) && inert(s, 2, wher) && inert(s, 4, wher));
    lemma_hole_once(s, 1);
    lemma_hole_once(s, 3);
}

} // verus!
