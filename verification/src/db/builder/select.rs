//! `SELECT` statements.

use super::{
    clause, keyword_clause, lemma_substituted, shown, substitute, substituted, then_substitute,
    then_substituted, NoSuchPatternError, QueryBuilder,
};
use crate::occurrence::{
    distinct_head, lemma_hole_once, once,
    bound_dollars, clear_of, differ_at, flat, inert, is_name, lemma_bound_absent,
    lemma_clear_then_absent, lemma_fill_hole, lemma_flat_17, lemma_flat_holds, lemma_name_clear,
    lemma_name_distinct_head, lemma_plain_clear, lemma_replace_keeps, lemma_tail_foreign, name_char,
    no_dollar,
};
use crate::text::{
    contains, decimal, decimal_string, lemma_digits_are_digits, occurs_at, opt_str, opt_text,
    replace_all,
};
use vstd::prelude::*;
use vstd::string::*;

verus! {

/// Builds `SELECT [COUNT(]<columns>[)] FROM <tables>`, followed by the
/// clauses `WHERE`, `GROUP BY`, `ORDER BY`, `LIMIT` and `OFFSET` that were
/// set, and a semicolon.
pub struct SelectQueryBuilder {
    template: String,
    where_clause: Option<String>,
    columns: Option<String>,
    from_tables: Option<String>,
    group_by: Option<String>,
    order_by: Option<String>,
    limit: Option<i32>,
    offset: Option<i32>,
    counting: Option<bool>,
}

/// What a [`SelectQueryBuilder`] holds.
pub struct SelectQuery {
    pub template: Seq<char>,
    pub filter: Option<Seq<char>>,
    pub columns: Option<Seq<char>>,
    pub from_tables: Option<Seq<char>>,
    pub group_by: Option<Seq<char>>,
    pub order_by: Option<Seq<char>>,
    pub limit: Option<i32>,
    pub offset: Option<i32>,
    pub counting: Option<bool>,
}

/// The text of an optional number behind its keyword.
pub open spec fn number_clause(keyword: Seq<char>, n: Option<i32>) -> Option<Seq<char>> {
    match n {
        Some(v) => Some(keyword + decimal(v as int)),
        None => None,
    }
}

/// What opens the column expression: `COUNT(` when counting.
pub open spec fn count_open(counting: Option<bool>) -> Option<Seq<char>> {
    if counting == Some(true) {
        Some("COUNT("@)
    } else {
        None
    }
}

/// What closes the column expression: `)` when counting.
pub open spec fn count_close(counting: Option<bool>) -> Option<Seq<char>> {
    if counting == Some(true) {
        Some(")"@)
    } else {
        None
    }
}

/// The placeholders of the default template, in the order in which they are
/// replaced.
pub open spec fn select_names() -> Seq<Seq<char>> {
    seq![
        "$columns"@,
        "$tables"@,
        "$where_clause"@,
        "$group_by"@,
        "$order_by"@,
        "$limit"@,
        "$offset"@,
        "$cnt_b"@,
        "$cnt_e"@,
    ]
}

/// The fragment, if there is one, holds none of the placeholders that are
/// replaced from step `from` on.
pub open spec fn free_from(fragment: Option<Seq<char>>, from: int) -> bool {
    fragment is Some ==> forall|i: int|
        from <= i < 9 ==> !contains(fragment->0, #[trigger] select_names()[i])
}

impl SelectQuery {
    /// The template of a fresh builder.
    pub open spec fn default_template() -> Seq<char> {
        "SELECT $cnt_b$columns$cnt_e FROM $tables $where_clause $group_by $order_by $limit $offset;"@
    }

    /// A fresh builder on `template`: every column, and nothing else set.
    pub open spec fn fresh(template: Seq<char>) -> SelectQuery {
        SelectQuery {
            template,
            filter: None,
            columns: Some("*"@),
            from_tables: None,
            group_by: None,
            order_by: None,
            limit: None,
            offset: None,
            counting: None,
        }
    }

    /// The statement, by replacing the placeholders one after the other.
    /// Without tables there is none.
    pub open spec fn sql(self) -> Result<Seq<char>, Seq<char>> {
        if self.from_tables is None {
            Err("$tables"@)
        } else {
            let s1 = substituted(self.template, "$columns"@, self.columns);
            let s2 = then_substituted(s1, "$tables"@, self.from_tables);
            let s3 = then_substituted(s2, "$where_clause"@, clause("WHERE "@, self.filter));
            let s4 = then_substituted(s3, "$group_by"@, clause("GROUP BY "@, self.group_by));
            let s5 = then_substituted(s4, "$order_by"@, clause("ORDER BY "@, self.order_by));
            let s6 = then_substituted(s5, "$limit"@, number_clause("LIMIT "@, self.limit));
            let s7 = then_substituted(s6, "$offset"@, number_clause("OFFSET "@, self.offset));
            let s8 = then_substituted(s7, "$cnt_b"@, count_open(self.counting));
            then_substituted(s8, "$cnt_e"@, count_close(self.counting))
        }
    }

    /// There are tables, and no fragment holds what a later replacement
    /// would take for a placeholder.
    pub open spec fn plain(self) -> bool {
        &&& self.from_tables is Some
        &&& free_from(self.columns, 1)
        &&& free_from(self.from_tables, 2)
        &&& free_from(self.filter, 3)
        &&& free_from(self.group_by, 4)
        &&& free_from(self.order_by, 5)
    }

    /// The statement of the default template, written out. Each clause that
    /// was not set leaves nothing but the blank that stood before its
    /// placeholder.
    pub open spec fn direct(self) -> Seq<char> {
        "SELECT "@ + shown(count_open(self.counting)) + shown(self.columns) + shown(
            count_close(self.counting),
        ) + " FROM "@ + shown(self.from_tables) + " "@ + shown(clause("WHERE "@, self.filter))
            + " "@ + shown(clause("GROUP BY "@, self.group_by)) + " "@ + shown(
            clause("ORDER BY "@, self.order_by),
        ) + " "@ + shown(number_clause("LIMIT "@, self.limit)) + " "@ + shown(
            number_clause("OFFSET "@, self.offset),
        ) + ";"@
    }
}

impl View for SelectQueryBuilder {
    type V = SelectQuery;

    closed spec fn view(&self) -> SelectQuery {
        SelectQuery {
            template: self.template@,
            filter: opt_text(self.where_clause),
            columns: opt_text(self.columns),
            from_tables: opt_text(self.from_tables),
            group_by: opt_text(self.group_by),
            order_by: opt_text(self.order_by),
            limit: self.limit,
            offset: self.offset,
            counting: self.counting,
        }
    }
}

impl SelectQueryBuilder {
    /// Sets the condition of the `WHERE` clause.
    pub fn filter(self, where_clause: &str) -> (b: Self)
        ensures
            b@ == (SelectQuery { filter: Some(where_clause@), ..self@ }),
    {
        let mut b = self;
        b.where_clause = Some(where_clause.to_owned());
        b
    }

    /// Sets the column expression.
    pub fn columns(self, columns: &str) -> (b: Self)
        ensures
            b@ == (SelectQuery { columns: Some(columns@), ..self@ }),
    {
        let mut b = self;
        b.columns = Some(columns.to_owned());
        b
    }

    /// Sets the tables to select from.
    pub fn from_tables(self, tables: &str) -> (b: Self)
        ensures
            b@ == (SelectQuery { from_tables: Some(tables@), ..self@ }),
    {
        let mut b = self;
        b.from_tables = Some(tables.to_owned());
        b
    }

    /// Sets the expression of the `GROUP BY` clause.
    pub fn group_by(self, group_by: &str) -> (b: Self)
        ensures
            b@ == (SelectQuery { group_by: Some(group_by@), ..self@ }),
    {
        let mut b = self;
        b.group_by = Some(group_by.to_owned());
        b
    }

    /// Sets the expression of the `ORDER BY` clause.
    pub fn order_by(self, order_by: &str) -> (b: Self)
        ensures
            b@ == (SelectQuery { order_by: Some(order_by@), ..self@ }),
    {
        let mut b = self;
        b.order_by = Some(order_by.to_owned());
        b
    }

    /// Sets the number of the `LIMIT` clause.
    pub fn limit(self, limit: i32) -> (b: Self)
        ensures
            b@ == (SelectQuery { limit: Some(limit), ..self@ }),
    {
        let mut b = self;
        b.limit = Some(limit);
        b
    }

    /// Sets the number of the `OFFSET` clause.
    pub fn offset(self, offset: i32) -> (b: Self)
        ensures
            b@ == (SelectQuery { offset: Some(offset), ..self@ }),
    {
        let mut b = self;
        b.offset = Some(offset);
        b
    }

    /// Says whether the statement counts the rows: the column expression
    /// then stands inside `COUNT( )`.
    pub fn counting(self, counting: bool) -> (b: Self)
        ensures
            b@ == (SelectQuery { counting: Some(counting), ..self@ }),
    {
        let mut b = self;
        b.counting = Some(counting);
        b
    }
}

/// The text of an optional number behind its keyword.
fn number_text(keyword: &str, n: Option<i32>) -> (r: Option<String>)
    ensures
        opt_text(r) == number_clause(keyword@, n),
{
    match n {
        Some(v) => {
            let mut s = String::from_str(keyword);
            let d = decimal_string(v as i64);
            s.append(d.as_str());
            Some(s)
        },
        None => None,
    }
}

impl QueryBuilder for SelectQueryBuilder {
    open spec fn rendered(&self) -> Result<Seq<char>, Seq<char>> {
        self@.sql()
    }

    open spec fn template(&self) -> Seq<char> {
        self@.template
    }

    open spec fn default_template() -> Seq<char> {
        SelectQuery::default_template()
    }

    fn default() -> (b: Self)
        ensures
            b@ == SelectQuery::fresh(SelectQuery::default_template()),
    {
        SelectQueryBuilder {
            template: String::from_str(
                "SELECT $cnt_b$columns$cnt_e FROM $tables $where_clause $group_by $order_by $limit $offset;",
            ),
            where_clause: None,
            columns: Some(String::from_str("*")),
            from_tables: None,
            group_by: None,
            order_by: None,
            limit: None,
            offset: None,
            counting: None,
        }
    }

    fn with_template(template: &str) -> (b: Self)
        ensures
            b@ == SelectQuery::fresh(template@),
    {
        let mut builder = Self::default();
        builder.template = template.to_owned();
        builder
    }

    fn build(self) -> (sql: String) {
        match self.try_build() {
            Ok(sql) => sql,
            Err(_) => vstd::pervasive::unreached(),
        }
    }

    fn try_build(self) -> (r: Result<String, NoSuchPatternError>) {
        if self.from_tables.is_none() {
            return Err(NoSuchPatternError { pattern: String::from_str("$tables") });
        }
        let where_clause = keyword_clause("WHERE ", &self.where_clause);
        let group_by = keyword_clause("GROUP BY ", &self.group_by);
        let order_by = keyword_clause("ORDER BY ", &self.order_by);
        let limit = number_text("LIMIT ", self.limit);
        let offset = number_text("OFFSET ", self.offset);
        let counting = match self.counting {
            Some(c) => c,
            None => false,
        };
        let (cnt_b, cnt_e) = if counting {
            (Some("COUNT("), Some(")"))
        } else {
            (None, None)
        };
        let s1 = substitute(self.template.as_str(), "$columns", opt_str(&self.columns));
        let s2 = then_substitute(s1, "$tables", opt_str(&self.from_tables));
        let s3 = then_substitute(s2, "$where_clause", opt_str(&where_clause));
        let s4 = then_substitute(s3, "$group_by", opt_str(&group_by));
        let s5 = then_substitute(s4, "$order_by", opt_str(&order_by));
        let s6 = then_substitute(s5, "$limit", opt_str(&limit));
        let s7 = then_substitute(s6, "$offset", opt_str(&offset));
        let s8 = then_substitute(s7, "$cnt_b", cnt_b);
        then_substitute(s8, "$cnt_e", cnt_e)
    }
}

/// The pieces of the default template, with what stands in its nine
/// places: from left to right, the opening of the count, the columns, the
/// closing of the count, the tables, the condition, the grouping, the
/// ordering, the limit and the offset.
pub open spec fn select_pieces(h: Seq<Seq<char>>) -> Seq<Seq<char>> {
    seq![
        "SELECT "@,
        h[0],
        h[1],
        h[2],
        " FROM "@,
        h[3],
        " "@,
        h[4],
        " "@,
        h[5],
        " "@,
        h[6],
        " "@,
        h[7],
        " "@,
        h[8],
        ";"@,
    ]
}

/// The place in the template of the placeholder that is replaced at `step`.
pub open spec fn place_of(step: int) -> int {
    if step == 0 {
        1
    } else if step == 7 {
        0
    } else if step == 8 {
        2
    } else {
        step + 2
    }
}

/// The step at which the placeholder at `place` is replaced.
pub open spec fn step_of(place: int) -> int {
    if place == 0 {
        7
    } else if place == 1 {
        0
    } else if place == 2 {
        8
    } else {
        place - 2
    }
}

/// What the replacement at `step` puts in.
pub open spec fn select_fill(q: SelectQuery, step: int) -> Option<Seq<char>> {
    if step == 0 {
        q.columns
    } else if step == 1 {
        q.from_tables
    } else if step == 2 {
        clause("WHERE "@, q.filter)
    } else if step == 3 {
        clause("GROUP BY "@, q.group_by)
    } else if step == 4 {
        clause("ORDER BY "@, q.order_by)
    } else if step == 5 {
        number_clause("LIMIT "@, q.limit)
    } else if step == 6 {
        number_clause("OFFSET "@, q.offset)
    } else if step == 7 {
        count_open(q.counting)
    } else {
        count_close(q.counting)
    }
}

/// What stands at `place` after the first `done` replacements.
pub open spec fn select_slot(q: SelectQuery, done: int, place: int) -> Seq<char> {
    if step_of(place) < done {
        shown(select_fill(q, step_of(place)))
    } else {
        select_names()[step_of(place)]
    }
}

/// What stands in the nine places after the first `done` replacements.
pub open spec fn select_stage(q: SelectQuery, done: int) -> Seq<Seq<char>> {
    Seq::new(9, |place: int| select_slot(q, done, place))
}

/// What stands at place `m` does not disturb the replacement of `p`: nothing
/// like `p` begins in it, or it holds no `p` and is followed by a character
/// that no placeholder holds after its dollar sign.
pub open spec fn settled(h: Seq<Seq<char>>, m: int, p: Seq<char>) -> bool {
    ||| clear_of(h[m], p)
    ||| {
        &&& 1 <= m
        &&& !contains(h[m], p)
        &&& m == 1 ==> h[2].len() > 0 && !name_char(h[2][0])
    }
}

/// What the pieces of the default template are made of.
proof fn lemma_select_literals()
    ensures
        SelectQuery::default_template() == flat(
            select_pieces(select_stage(SelectQuery::fresh(SelectQuery::default_template()), 0)),
        ),
        no_dollar("SELECT "@),
        no_dollar(" FROM "@),
        no_dollar(" "@),
        no_dollar(";"@),
        " FROM "@.len() > 0,
        " FROM "@[0] == ' ',
        " "@.len() > 0,
        " "@[0] == ' ',
        ";"@.len() > 0,
        ";"@[0] == ';',
{
    reveal_strlit(
        "SELECT $cnt_b$columns$cnt_e FROM $tables $where_clause $group_by $order_by $limit $offset;",
    );
    reveal_strlit("SELECT ");
    reveal_strlit(" FROM ");
    reveal_strlit(" ");
    reveal_strlit(";");
    reveal_strlit("$columns");
    reveal_strlit("$tables");
    reveal_strlit("$where_clause");
    reveal_strlit("$group_by");
    reveal_strlit("$order_by");
    reveal_strlit("$limit");
    reveal_strlit("$offset");
    reveal_strlit("$cnt_b");
    reveal_strlit("$cnt_e");
    let q = SelectQuery::fresh(SelectQuery::default_template());
    let h = select_stage(q, 0);
    let s = select_pieces(h);
    lemma_flat_17(s);
    assert(h[0] == "$cnt_b"@);
    assert(h[1] == "$columns"@);
    assert(h[2] == "$cnt_e"@);
    assert(h[3] == "$tables"@);
    assert(h[4] == "$where_clause"@);
    assert(h[5] == "$group_by"@);
    assert(h[6] == "$order_by"@);
    assert(h[7] == "$limit"@);
    assert(h[8] == "$offset"@);
    assert(SelectQuery::default_template() =~= s[0] + s[1] + s[2] + s[3] + s[4] + s[5] + s[6]
        + s[7] + s[8] + s[9] + s[10] + s[11] + s[12] + s[13] + s[14] + s[15] + s[16]);
}

/// The placeholders are names, and nothing like one of them begins in
/// another.
proof fn lemma_select_names()
    ensures
        forall|i: int| 0 <= i < 9 ==> is_name(#[trigger] select_names()[i]),
        forall|a: int, b: int|
            0 <= a < 9 && 0 <= b < 9 && a != b ==> clear_of(
                #[trigger] select_names()[a],
                #[trigger] select_names()[b],
            ),
{
    reveal_strlit("$columns");
    reveal_strlit("$tables");
    reveal_strlit("$where_clause");
    reveal_strlit("$group_by");
    reveal_strlit("$order_by");
    reveal_strlit("$limit");
    reveal_strlit("$offset");
    reveal_strlit("$cnt_b");
    reveal_strlit("$cnt_e");
    let n = select_names();
    assert(is_name(n[0]));
    assert(is_name(n[1]));
    assert(is_name(n[2]));
    assert(is_name(n[3]));
    assert(is_name(n[4]));
    assert(is_name(n[5]));
    assert(is_name(n[6]));
    assert(is_name(n[7]));
    assert(is_name(n[8]));
    assert forall|a: int, b: int| 0 <= a < 9 && 0 <= b < 9 && a != b implies clear_of(
        #[trigger] select_names()[a],
        #[trigger] select_names()[b],
    ) by {
        let low = if a < b {
            a
        } else {
            b
        };
        let high = if a < b {
            b
        } else {
            a
        };
        let k: int = if low == 0 && high >= 7 {
            2
        } else if low == 4 && high == 6 {
            2
        } else if low == 7 {
            5
        } else {
            1
        };
        assert(differ_at(n[a], n[b], k));
        lemma_name_clear(n[a], n[b], k);
    }
}

/// The piece of the statement that stands at place `j`.
pub open spec fn piece_of(j: int) -> int {
    if j < 3 {
        j + 1
    } else {
        2 * j - 1
    }
}

/// Where what stands at the other places is settled for the placeholder at
/// place `j`, every other piece of the statement is inert for it.
proof fn lemma_select_inert(h: Seq<Seq<char>>, j: int)
    requires
        h.len() == 9,
        0 <= j < 9,
        is_name(h[j]),
        forall|m: int| 0 <= m < 9 && m != j ==> #[trigger] settled(h, m, h[j]),
    ensures
        select_pieces(h)[piece_of(j)] == h[j],
        distinct_head(h[j]),
        forall|i: int|
            0 <= i < 17 && i != piece_of(j) ==> #[trigger] inert(select_pieces(h), i, h[j]),
{
    lemma_select_literals();
    let p = h[j];
    let s = select_pieces(h);
    lemma_name_distinct_head(p);
    lemma_plain_clear("SELECT "@, p);
    lemma_plain_clear(" FROM "@, p);
    lemma_plain_clear(" "@, p);
    lemma_plain_clear(";"@, p);
    lemma_tail_foreign(' ', p);
    lemma_tail_foreign(';', p);
    assert forall|i: int| 0 <= i < 17 && i != piece_of(j) implies #[trigger] inert(s, i, p) by {
        if i == 1 {
            assert(settled(h, 0, p));
        } else if i == 2 {
            assert(settled(h, 1, p));
            if !clear_of(h[1], p) {
                lemma_tail_foreign(h[2][0], p);
            }
        } else if i == 3 {
            assert(settled(h, 2, p));
        } else if i == 5 {
            assert(settled(h, 3, p));
        } else if i == 7 {
            assert(settled(h, 4, p));
        } else if i == 9 {
            assert(settled(h, 5, p));
        } else if i == 11 {
            assert(settled(h, 6, p));
        } else if i == 13 {
            assert(settled(h, 7, p));
        } else if i == 15 {
            assert(settled(h, 8, p));
        }
    }
}

/// Replacing the placeholder at place `j` puts `w` there and leaves the rest
/// of the statement as it is, provided that what stands at the other places
/// is settled.
proof fn lemma_select_fill(h: Seq<Seq<char>>, j: int, w: Seq<char>)
    requires
        h.len() == 9,
        0 <= j < 9,
        is_name(h[j]),
        forall|m: int| 0 <= m < 9 && m != j ==> #[trigger] settled(h, m, h[j]),
    ensures
        contains(flat(select_pieces(h)), h[j]),
        replace_all(flat(select_pieces(h)), h[j], w) == flat(select_pieces(h.update(j, w))),
{
    let s = select_pieces(h);
    let k = piece_of(j);
    lemma_select_inert(h, j);
    lemma_fill_hole(s, k, w);
    assert(s.update(k, w) =~= select_pieces(h.update(j, w)));
}

/// Each placeholder occurs in the default template exactly once.
pub proof fn lemma_select_template()
    ensures
        forall|n: int|
            0 <= n < 9 ==> once(SelectQuery::default_template(), #[trigger] select_names()[n]),
{
    lemma_select_literals();
    lemma_select_names();
    let q = SelectQuery::fresh(SelectQuery::default_template());
    let h = select_stage(q, 0);
    assert forall|n: int| 0 <= n < 9 implies once(
        SelectQuery::default_template(),
        #[trigger] select_names()[n],
    ) by {
        let j = place_of(n);
        assert(h[j] == select_names()[n]);
        assert forall|m: int| 0 <= m < 9 && m != j implies #[trigger] settled(h, m, h[j]) by {
            assert(h[m] == select_names()[step_of(m)]);
            assert(clear_of(select_names()[step_of(m)], select_names()[n]));
        }
        lemma_select_inert(h, j);
        lemma_hole_once(select_pieces(h), piece_of(j));
    }
}

/// Text behind a keyword without a dollar sign holds no `p` if the text
/// holds none.
proof fn lemma_clause_absent(keyword: Seq<char>, fragment: Option<Seq<char>>, p: Seq<char>)
    requires
        is_name(p),
        no_dollar(keyword),
        fragment is Some ==> !contains(fragment->0, p),
    ensures
        !contains(shown(clause(keyword, fragment)), p),
{
    match fragment {
        Some(f) => {
            lemma_plain_clear(keyword, p);
            lemma_clear_then_absent(keyword, f, p);
        },
        None => {
            assert forall|i: int| !occurs_at(Seq::<char>::empty(), p, i) by {}
        },
    }
}

/// A number behind a keyword without a dollar sign holds no dollar sign.
proof fn lemma_number_plain(keyword: Seq<char>, n: Option<i32>)
    requires
        no_dollar(keyword),
    ensures
        no_dollar(shown(number_clause(keyword, n))),
{
    match n {
        Some(v) => {
            let d = decimal(v as int);
            if v < 0 {
                lemma_digits_are_digits((-v) as nat);
            } else {
                lemma_digits_are_digits(v as nat);
            }
            assert forall|i: int| 0 <= i < (keyword + d).len() implies #[trigger] (keyword + d)[i]
                != '$' by {
                if i >= keyword.len() {
                    assert((keyword + d)[i] == d[i - keyword.len()]);
                }
            }
        },
        None => {},
    }
}

/// The keywords of the clauses hold no dollar sign.
proof fn lemma_select_words()
    ensures
        no_dollar("WHERE "@),
        no_dollar("GROUP BY "@),
        no_dollar("ORDER BY "@),
        no_dollar("LIMIT "@),
        no_dollar("OFFSET "@),
        no_dollar("COUNT("@),
        no_dollar(")"@),
        "$cnt_e"@.len() > 0,
        "$cnt_e"@[0] == '$',
{
    reveal_strlit("WHERE ");
    reveal_strlit("GROUP BY ");
    reveal_strlit("ORDER BY ");
    reveal_strlit("LIMIT ");
    reveal_strlit("OFFSET ");
    reveal_strlit("COUNT(");
    reveal_strlit(")");
    reveal_strlit("$cnt_e");
}

/// After `done` replacements, what stands at place `m` is settled for the
/// placeholder that is replaced next.
proof fn lemma_select_settled(q: SelectQuery, done: int, m: int)
    requires
        q.plain(),
        0 <= done < 9,
        0 <= m < 9,
        m != place_of(done),
    ensures
        settled(select_stage(q, done), m, select_names()[done]),
{
    lemma_select_names();
    lemma_select_words();
    let h = select_stage(q, done);
    let p = select_names()[done];
    let step = step_of(m);
    assert(is_name(p));
    assert(h[2] == "$cnt_e"@);
    if step > done {
        assert(h[m] == select_names()[step]);
    } else {
        assert(step < done);
        assert(h[m] == shown(select_fill(q, step)));
        if step == 0 {
            if q.columns is Some {
                assert(!contains(q.columns->0, select_names()[done]));
            } else {
                assert(clear_of(h[m], p));
            }
        } else if step == 1 {
            assert(!contains(q.from_tables->0, select_names()[done]));
        } else if step == 2 {
            if q.filter is Some {
                assert(!contains(q.filter->0, select_names()[done]));
            }
            lemma_clause_absent("WHERE "@, q.filter, p);
        } else if step == 3 {
            if q.group_by is Some {
                assert(!contains(q.group_by->0, select_names()[done]));
            }
            lemma_clause_absent("GROUP BY "@, q.group_by, p);
        } else if step == 4 {
            if q.order_by is Some {
                assert(!contains(q.order_by->0, select_names()[done]));
            }
            lemma_clause_absent("ORDER BY "@, q.order_by, p);
        } else if step == 5 {
            lemma_number_plain("LIMIT "@, q.limit);
            lemma_plain_clear(h[m], p);
        } else if step == 6 {
            lemma_number_plain("OFFSET "@, q.offset);
            lemma_plain_clear(h[m], p);
        } else {
            lemma_plain_clear(h[m], p);
        }
    }
}

/// The replacement at step `done` turns the statement after `done`
/// replacements into the statement after one more.
proof fn lemma_select_step(q: SelectQuery, done: int)
    requires
        q.plain(),
        0 <= done < 9,
    ensures
        substituted(
            flat(select_pieces(select_stage(q, done))),
            select_names()[done],
            select_fill(q, done),
        ) == Ok::<Seq<char>, Seq<char>>(flat(select_pieces(select_stage(q, done + 1)))),
{
    lemma_select_names();
    let h = select_stage(q, done);
    let j = place_of(done);
    let p = select_names()[done];
    let w = shown(select_fill(q, done));
    assert(h[j] == p);
    assert forall|m: int| 0 <= m < 9 && m != j implies #[trigger] settled(h, m, h[j]) by {
        lemma_select_settled(q, done, m);
    }
    lemma_select_fill(h, j, w);
    assert(h.update(j, w) =~= select_stage(q, done + 1));
}

/// On the default template, with tables, and with fragments that hold no
/// later placeholder, the statement is the one that
/// [`SelectQuery::direct`] writes out: the clauses in the order `WHERE`,
/// `GROUP BY`, `ORDER BY`, `LIMIT`, `OFFSET`, and nothing of a clause that
/// was not set but the blank that stood before its placeholder.
pub proof fn lemma_select_sql(q: SelectQuery)
    requires
        q.template == SelectQuery::default_template(),
        q.plain(),
    ensures
        q.sql() == Ok::<Seq<char>, Seq<char>>(q.direct()),
{
    lemma_select_literals();
    assert(select_stage(q, 0) =~= select_stage(
        SelectQuery::fresh(SelectQuery::default_template()),
        0,
    ));
    lemma_select_step(q, 0);
    lemma_select_step(q, 1);
    lemma_select_step(q, 2);
    lemma_select_step(q, 3);
    lemma_select_step(q, 4);
    lemma_select_step(q, 5);
    lemma_select_step(q, 6);
    lemma_select_step(q, 7);
    lemma_select_step(q, 8);
    let s = select_pieces(select_stage(q, 9));
    lemma_flat_17(s);
    assert(flat(s) =~= q.direct());
}

/// The fragment, if there is one, has all its dollar signs bound.
pub open spec fn opt_bound(fragment: Option<Seq<char>>) -> bool {
    fragment is Some ==> bound_dollars(fragment->0)
}

/// A fragment whose dollar signs are all bound holds no placeholder.
pub proof fn lemma_bound_free(fragment: Option<Seq<char>>, from: int)
    requires
        opt_bound(fragment),
        0 <= from,
    ensures
        free_from(fragment, from),
{
    lemma_select_names();
    if fragment is Some {
        assert forall|i: int| from <= i < 9 implies !contains(
            fragment->0,
            #[trigger] select_names()[i],
        ) by {
            lemma_bound_absent(fragment->0, select_names()[i]);
        }
    }
}

/// Fragments whose dollar signs are all bound, as in `Name=$1`, hold no
/// placeholder of the template: with tables, such a statement is plain.
pub proof fn lemma_select_plain(q: SelectQuery)
    requires
        q.from_tables is Some,
        opt_bound(q.columns),
        opt_bound(q.from_tables),
        opt_bound(q.filter),
        opt_bound(q.group_by),
        opt_bound(q.order_by),
    ensures
        q.plain(),
{
    lemma_bound_free(q.columns, 1);
    lemma_bound_free(q.from_tables, 2);
    lemma_bound_free(q.filter, 3);
    lemma_bound_free(q.group_by, 4);
    lemma_bound_free(q.order_by, 5);
}

/// The statement after the first `done` replacements, whatever the
/// fragments hold.
pub open spec fn select_text(q: SelectQuery, done: int) -> Seq<char>
    decreases done,
{
    if done <= 0 {
        q.template
    } else {
        replace_all(
            select_text(q, done - 1),
            select_names()[done - 1],
            shown(select_fill(q, done - 1)),
        )
    }
}

/// After `done` replacements on the default template, every placeholder
/// that is still to be replaced is still there.
proof fn lemma_select_remaining(q: SelectQuery, done: int)
    requires
        q.template == SelectQuery::default_template(),
        0 <= done <= 9,
    ensures
        forall|j: int|
            done <= j < 9 ==> contains(select_text(q, done), #[trigger] select_names()[j]),
    decreases done,
{
    lemma_select_names();
    if done == 0 {
        lemma_select_literals();
        let h = select_stage(SelectQuery::fresh(SelectQuery::default_template()), 0);
        let s = select_pieces(h);
        assert forall|j: int| 0 <= j < 9 implies contains(
            select_text(q, 0),
            #[trigger] select_names()[j],
        ) by {
            let m = place_of(j);
            let k: int = if m < 3 {
                m + 1
            } else {
                2 * m - 1
            };
            assert(h[m] == select_names()[j]);
            assert(s[k] == h[m]);
            lemma_flat_holds(s, k);
        }
    } else {
        lemma_select_remaining(q, done - 1);
        let before = select_text(q, done - 1);
        let p = select_names()[done - 1];
        let w = shown(select_fill(q, done - 1));
        assert forall|j: int| done <= j < 9 implies contains(
            select_text(q, done),
            #[trigger] select_names()[j],
        ) by {
            assert(clear_of(select_names()[j], select_names()[done - 1]));
            lemma_replace_keeps(before, select_names()[j], p, w);
        }
    }
}

/// On the default template, a statement can be built if and only if it has
/// tables, whatever its fragments hold: no replacement takes away a
/// placeholder that a later one needs.
pub proof fn lemma_select_builds(q: SelectQuery)
    requires
        q.template == SelectQuery::default_template(),
    ensures
        q.sql() is Ok <==> q.from_tables is Some,
        q.from_tables is Some ==> q.sql() == Ok::<Seq<char>, Seq<char>>(select_text(q, 9)),
{
    if q.from_tables is Some {
        reveal_with_fuel(select_text, 10);
        lemma_select_remaining(q, 0);
        lemma_select_remaining(q, 1);
        lemma_select_remaining(q, 2);
        lemma_select_remaining(q, 3);
        lemma_select_remaining(q, 4);
        lemma_select_remaining(q, 5);
        lemma_select_remaining(q, 6);
        lemma_select_remaining(q, 7);
        lemma_select_remaining(q, 8);
        let n = select_names();
        assert(contains(select_text(q, 0), n[0]));
        assert(contains(select_text(q, 1), n[1]));
        assert(contains(select_text(q, 2), n[2]));
        assert(contains(select_text(q, 3), n[3]));
        assert(contains(select_text(q, 4), n[4]));
        assert(contains(select_text(q, 5), n[5]));
        assert(contains(select_text(q, 6), n[6]));
        assert(contains(select_text(q, 7), n[7]));
        assert(contains(select_text(q, 8), n[8]));
        lemma_substituted(select_text(q, 0), n[0], select_fill(q, 0));
        lemma_substituted(select_text(q, 1), n[1], select_fill(q, 1));
        lemma_substituted(select_text(q, 2), n[2], select_fill(q, 2));
        lemma_substituted(select_text(q, 3), n[3], select_fill(q, 3));
        lemma_substituted(select_text(q, 4), n[4], select_fill(q, 4));
        lemma_substituted(select_text(q, 5), n[5], select_fill(q, 5));
        lemma_substituted(select_text(q, 6), n[6], select_fill(q, 6));
        lemma_substituted(select_text(q, 7), n[7], select_fill(q, 7));
        lemma_substituted(select_text(q, 8), n[8], select_fill(q, 8));
    }
}

} // verus!
