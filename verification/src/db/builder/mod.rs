//! Statement builders: each turns a template and the fragments given to it
//! into one SQL statement, by replacing the template's placeholders.

pub mod delete;
pub mod insert;
pub mod select;
pub mod update;

use crate::text::{
    chars_of, contains, digits, joined, natural_string, replace_all, replace_chars, texts,
};
use vstd::prelude::*;
use vstd::string::*;

pub use self::delete::DeleteQueryBuilder;
pub use self::insert::InsertQueryBuilder;
pub use self::select::SelectQueryBuilder;
pub use self::update::UpdateQueryBuilder;

verus! {

/// What `format!("{:?}", s)` writes for a string `s`: the text in double
/// quotes, with the escapes of `str`'s `Debug` impl.
pub uninterp spec fn debug_quoted(s: Seq<char>) -> Seq<char>;

/// `str`'s `Debug` rendering, through `format!`. It depends on the text alone.
#[verifier::external_body]
fn quote(s: &str) -> (r: String)
    ensures
        r@ == debug_quoted(s@),
{
    format!("{:?}", s)
}

/// A template was asked to take a fragment for a placeholder that it does
/// not hold, or was left without a fragment that the statement needs.
#[derive(Debug)]
pub struct NoSuchPatternError {
    /// The placeholder that could not be served.
    pub pattern: String,
}

impl NoSuchPatternError {
    /// The text of the message for a missing `pattern`.
    pub open spec fn message(pattern: Seq<char>) -> Seq<char> {
        "No pattern "@ + debug_quoted(pattern) + " in template"@
    }

    /// The message around the quoted pattern.
    pub fn describe(quoted: &str) -> (r: String)
        ensures
            r@ == "No pattern "@ + quoted@ + " in template"@,
    {
        let mut r = String::from_str("No pattern ");
        r.append(quoted);
        r.append(" in template");
        r
    }

    /// The message of this error.
    pub fn description(&self) -> (r: String)
        ensures
            r@ == Self::message(self.pattern@),
    {
        let q = quote(self.pattern.as_str());
        Self::describe(q.as_str())
    }
}

/// The outcome of putting `w` in the place of the placeholder `p` of the
/// template `t`. Without a fragment the placeholder is deleted. With one,
/// the placeholder has to occur in the template; the error names it.
pub open spec fn substituted(t: Seq<char>, p: Seq<char>, w: Option<Seq<char>>) -> Result<
    Seq<char>,
    Seq<char>,
> {
    match w {
        None => Ok(replace_all(t, p, Seq::<char>::empty())),
        Some(x) => if contains(t, p) {
            Ok(replace_all(t, p, x))
        } else {
            Err(p)
        },
    }
}

/// [`substituted`] on the outcome of an earlier substitution: an earlier
/// failure stays.
pub open spec fn then_substituted(
    prev: Result<Seq<char>, Seq<char>>,
    p: Seq<char>,
    w: Option<Seq<char>>,
) -> Result<Seq<char>, Seq<char>> {
    match prev {
        Ok(t) => substituted(t, p, w),
        Err(e) => Err(e),
    }
}

/// A template that holds the placeholder takes every fragment for it, and
/// an absent fragment as the empty text.
pub proof fn lemma_substituted(t: Seq<char>, p: Seq<char>, w: Option<Seq<char>>)
    requires
        contains(t, p),
    ensures
        substituted(t, p, w) == Ok::<Seq<char>, Seq<char>>(replace_all(t, p, shown(w))),
{
}

/// An executable result as the outcome that the spec functions speak of.
pub open spec fn outcome(r: Result<String, NoSuchPatternError>) -> Result<Seq<char>, Seq<char>> {
    match r {
        Ok(s) => Ok(s@),
        Err(e) => Err(e.pattern@),
    }
}

/// The text of an optional fragment behind its keyword.
pub open spec fn clause(keyword: Seq<char>, fragment: Option<Seq<char>>) -> Option<Seq<char>> {
    match fragment {
        Some(f) => Some(keyword + f),
        None => None,
    }
}

/// An optional fragment as it stands in the statement: absent, it leaves
/// nothing.
pub open spec fn shown(fragment: Option<Seq<char>>) -> Seq<char> {
    match fragment {
        Some(f) => f,
        None => Seq::<char>::empty(),
    }
}

/// Replaces every occurrence of `pattern` in `template` by the fragment, or
/// deletes it where there is no fragment. A fragment for a pattern that the
/// template does not hold is an error.
pub fn substitute(template: &str, pattern: &str, substitution: Option<&str>) -> (r: Result<
    String,
    NoSuchPatternError,
>)
    ensures
        outcome(r) == substituted(template@, pattern@, crate::text::opt_view(substitution)),
{
    let t = chars_of(template);
    let p = chars_of(pattern);
    match substitution {
        None => {
            proof {
                reveal_strlit("");
                assert(""@ =~= Seq::<char>::empty());
            }
            let (s, _) = replace_chars(&t, &p, "");
            Ok(s)
        },
        Some(w) => {
            let (s, found) = replace_chars(&t, &p, w);
            if found {
                Ok(s)
            } else {
                Err(NoSuchPatternError { pattern: pattern.to_owned() })
            }
        },
    }
}

/// [`substitute`] on the outcome of an earlier substitution.
pub fn then_substitute(
    prev: Result<String, NoSuchPatternError>,
    pattern: &str,
    substitution: Option<&str>,
) -> (r: Result<String, NoSuchPatternError>)
    ensures
        outcome(r) == then_substituted(
            outcome(prev),
            pattern@,
            crate::text::opt_view(substitution),
        ),
{
    match prev {
        Ok(t) => substitute(t.as_str(), pattern, substitution),
        Err(e) => Err(e),
    }
}

/// The text of an optional fragment behind its keyword.
pub fn keyword_clause(keyword: &str, fragment: &Option<String>) -> (r: Option<String>)
    ensures
        crate::text::opt_text(r) == clause(keyword@, crate::text::opt_text(*fragment)),
{
    match fragment {
        Some(f) => {
            let mut s = String::from_str(keyword);
            s.append(f.as_str());
            Some(s)
        },
        None => None,
    }
}

/// The positional placeholder with number `k`: `$k`.
pub open spec fn placeholder(k: nat) -> Seq<char> {
    seq!['$'] + digits(k)
}

/// The column names, with commas between them.
pub open spec fn column_list(columns: Seq<Seq<char>>) -> Seq<char> {
    joined(columns, seq![','])
}

/// The placeholders `$1` to `$n`, with commas between them.
pub open spec fn placeholder_list(n: nat) -> Seq<char> {
    joined(Seq::new(n, |i: int| placeholder((i + 1) as nat)), seq![','])
}

/// The pairs `column=$k`, numbered from 1 in the order of the columns, with
/// commas between them.
pub open spec fn assignment_list(columns: Seq<Seq<char>>) -> Seq<char> {
    joined(
        Seq::new(columns.len(), |i: int| columns[i] + seq!['='] + placeholder((i + 1) as nat)),
        seq![','],
    )
}

/// The column names, with commas between them.
pub fn join_columns(columns: &Vec<String>) -> (r: String)
    ensures
        r@ == column_list(texts(columns@)),
{
    let ghost parts = texts(columns@);
    let mut r = String::new();
    let mut i: usize = 0;
    while i < columns.len()
        invariant
            i <= columns.len(),
            parts == texts(columns@),
            r@ == joined(parts.take(i as int), seq![',']),
        decreases columns.len() - i,
    {
        let ghost before = r@;
        if i > 0 {
            r.push(',');
        }
        r.append(columns[i].as_str());
        i += 1;
        proof {
            let now = parts.take(i as int);
            assert(now.drop_last() =~= parts.take(i - 1));
            assert(now.last() == columns@[i - 1]@);
            if i > 1 {
                assert(r@ =~= before + seq![','] + now.last());
            }
        }
    }
    proof {
        assert(parts.take(columns.len() as int) =~= parts);
    }
    r
}

/// The placeholders `$1` to `$n`, with commas between them.
pub fn join_placeholders(n: usize) -> (r: String)
    ensures
        r@ == placeholder_list(n as nat),
{
    let ghost parts = Seq::new(n as nat, |i: int| placeholder((i + 1) as nat));
    let mut r = String::new();
    let mut i: usize = 0;
    while i < n
        invariant
            i <= n,
            parts == Seq::new(n as nat, |i: int| placeholder((i + 1) as nat)),
            r@ == joined(parts.take(i as int), seq![',']),
        decreases n - i,
    {
        let ghost before = r@;
        if i > 0 {
            r.push(',');
        }
        r.push('$');
        let number = natural_string((i + 1) as u64);
        r.append(number.as_str());
        i += 1;
        proof {
            let now = parts.take(i as int);
            assert(now.drop_last() =~= parts.take(i - 1));
            assert(now.last() == placeholder(i as nat));
            if i > 1 {
                assert(r@ =~= before + seq![','] + now.last());
            } else {
                assert(r@ =~= now.last());
            }
        }
    }
    proof {
        assert(parts.take(n as int) =~= parts);
    }
    r
}

/// The pairs `column=$k`, numbered from 1 in the order of the columns, with
/// commas between them.
pub fn join_assignments(columns: &Vec<String>) -> (r: String)
    ensures
        r@ == assignment_list(texts(columns@)),
{
    let ghost names = texts(columns@);
    let ghost parts = Seq::new(
        names.len(),
        |i: int| names[i] + seq!['='] + placeholder((i + 1) as nat),
    );
    let mut r = String::new();
    let mut i: usize = 0;
    while i < columns.len()
        invariant
            i <= columns.len(),
            names == texts(columns@),
            parts == Seq::new(
                names.len(),
                |i: int| names[i] + seq!['='] + placeholder((i + 1) as nat),
            ),
            r@ == joined(parts.take(i as int), seq![',']),
        decreases columns.len() - i,
    {
        let ghost before = r@;
        if i > 0 {
            r.push(',');
        }
        r.append(columns[i].as_str());
        r.push('=');
        r.push('$');
        let number = natural_string((i + 1) as u64);
        r.append(number.as_str());
        i += 1;
        proof {
            let now = parts.take(i as int);
            assert(now.drop_last() =~= parts.take(i - 1));
            assert(now.last() =~= columns@[i - 1]@ + seq!['='] + placeholder(i as nat));
            if i > 1 {
                assert(r@ =~= before + seq![','] + now.last());
            } else {
                assert(r@ =~= now.last());
            }
        }
    }
    proof {
        assert(parts.take(columns.len() as int) =~= parts);
    }
    r
}

/// What the four statement builders share: a default template, a template of
/// the caller's choice, and the rendering that uses the builder up.
pub trait QueryBuilder: Sized {
    /// The statement that the builder stands for, or the placeholder that
    /// cannot be served.
    spec fn rendered(&self) -> Result<Seq<char>, Seq<char>>;

    /// The template that the builder fills in.
    spec fn template(&self) -> Seq<char>;

    /// The template of [`QueryBuilder::default`].
    spec fn default_template() -> Seq<char>;

    /// A builder on the default template.
    fn default() -> (b: Self)
        ensures
            b.template() == Self::default_template(),
    ;

    /// A builder as [`QueryBuilder::default`] gives it, on `template`.
    fn with_template(template: &str) -> (b: Self)
        ensures
            b.template() == template@,
    ;

    /// Renders the statement. The builder is used up.
    fn build(self) -> (sql: String)
        requires
            self.rendered() is Ok,
        ensures
            self.rendered() == Ok::<Seq<char>, Seq<char>>(sql@),
    ;

    /// Renders the statement, or names the placeholder that cannot be served.
    fn try_build(self) -> (r: Result<String, NoSuchPatternError>)
        ensures
            outcome(r) == self.rendered(),
    ;
}

} // verus!
