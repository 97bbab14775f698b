//! Rows as the database hands them over: cells in the order of the result
//! set, each with a column name and a value, read by name.

use crate::text::chars_of;
use vstd::prelude::*;
use vstd::string::*;

verus! {

/// A date and time without a time zone: seconds and nanoseconds since the
/// beginning of 1970.
#[derive(Clone, Copy, Debug, PartialEq, Eq, Structural, PartialOrd, Ord)]
pub struct Timestamp {
    pub seconds: i64,
    pub nanos: u32,
}

/// What chrono writes for the date and time without a time zone that lies
/// `seconds` and `nanos` after the beginning of 1970, as in
/// `2015-05-15 00:00:00`; nothing where chrono has no such date and time.
pub uninterp spec fn naive_text(seconds: i64, nanos: u32) -> Option<Seq<char>>;

/// chrono's `DateTime::from_timestamp`, which gives the date and time for
/// seconds and nanoseconds or nothing where they are out of its range, and
/// the `Display` rendering of the `NaiveDateTime` in it. Both depend on the
/// two numbers alone.
#[verifier::external_body]
fn naive_date_time_text(seconds: i64, nanos: u32) -> (r: Option<String>)
    ensures
        crate::text::opt_text(r) == naive_text(seconds, nanos),
{
    match chrono::DateTime::from_timestamp(seconds, nanos) {
        Some(t) => Some(t.naive_utc().to_string()),
        None => None,
    }
}

impl Timestamp {
    /// The date and time as text, as the database reads it.
    pub fn text(&self) -> (r: Option<String>)
        ensures
            crate::text::opt_text(r) == naive_text(self.seconds, self.nanos),
    {
        naive_date_time_text(self.seconds, self.nanos)
    }
}

/// A value of a column, or a positional argument of a statement.
#[derive(Debug, Clone, PartialEq, Eq)]
pub enum Value {
    /// No value.
    Null,
    Int(i32),
    Text(String),
    Bool(bool),
    Bytes(Vec<u8>),
    Time(Timestamp),
}

/// What a [`Value`] holds.
pub enum ValueModel {
    Null,
    Int(i32),
    Text(Seq<char>),
    Bool(bool),
    Bytes(Seq<u8>),
    Time(Timestamp),
}

impl View for Value {
    type V = ValueModel;

    open spec fn view(&self) -> ValueModel {
        match self {
            Value::Null => ValueModel::Null,
            Value::Int(v) => ValueModel::Int(*v),
            Value::Text(s) => ValueModel::Text(s@),
            Value::Bool(b) => ValueModel::Bool(*b),
            Value::Bytes(b) => ValueModel::Bytes(b@),
            Value::Time(t) => ValueModel::Time(*t),
        }
    }
}

/// What a column's values can be.
pub enum Kind {
    Int,
    Text,
    Bool,
    Bytes,
    Time,
    /// An integer or no value.
    OptInt,
    /// A text or no value.
    OptText,
}

/// A value can stand in a column of this kind.
pub open spec fn fits(kind: Kind, value: ValueModel) -> bool {
    match kind {
        Kind::Int => value is Int,
        Kind::Text => value is Text,
        Kind::Bool => value is Bool,
        Kind::Bytes => value is Bytes,
        Kind::Time => value is Time,
        Kind::OptInt => value is Int || value is Null,
        Kind::OptText => value is Text || value is Null,
    }
}

/// The lower-case form of an ASCII capital; any other character itself.
pub open spec fn lower(c: char) -> char {
    if 'A' <= c && c <= 'Z' {
        ((c as u8) + 32) as char
    } else {
        c
    }
}

/// The two texts are equal up to the case of their ASCII letters.
pub open spec fn same_folded(a: Seq<char>, b: Seq<char>) -> bool {
    &&& a.len() == b.len()
    &&& forall|i: int| 0 <= i < a.len() ==> lower(#[trigger] a[i]) == lower(b[i])
}

/// The name of cell `i` is `name`: exactly, or up to the case of ASCII
/// letters where `folded` is set.
pub open spec fn names(
    cells: Seq<(Seq<char>, ValueModel)>,
    name: Seq<char>,
    folded: bool,
    i: int,
) -> bool {
    0 <= i < cells.len() && if folded {
        same_folded(cells[i].0, name)
    } else {
        cells[i].0 == name
    }
}

/// Cell `i` is the first whose name is `name`.
pub open spec fn first_named(
    cells: Seq<(Seq<char>, ValueModel)>,
    name: Seq<char>,
    folded: bool,
    i: int,
) -> bool {
    &&& names(cells, name, folded, i)
    &&& forall|k: int| 0 <= k < i ==> !names(cells, name, folded, k)
}

/// The index of the cell that `name` stands for: the first cell with
/// exactly this name; where there is none, the first whose name equals it up
/// to the case of ASCII letters.
pub open spec fn position(cells: Seq<(Seq<char>, ValueModel)>, name: Seq<char>) -> Option<int> {
    if exists|i: int| first_named(cells, name, false, i) {
        Some(choose|i: int| first_named(cells, name, false, i))
    } else if exists|i: int| first_named(cells, name, true, i) {
        Some(choose|i: int| first_named(cells, name, true, i))
    } else {
        None
    }
}

/// The value of the cell that `name` stands for.
pub open spec fn lookup(cells: Seq<(Seq<char>, ValueModel)>, name: Seq<char>) -> Option<
    ValueModel,
> {
    match position(cells, name) {
        Some(i) => Some(cells[i].1),
        None => None,
    }
}

/// `found` says whether `name` stands for a value of this kind.
pub open spec fn reads(
    cells: Seq<(Seq<char>, ValueModel)>,
    name: Seq<char>,
    kind: Kind,
    found: bool,
) -> bool {
    found == (lookup(cells, name) is Some && fits(kind, lookup(cells, name)->0))
}

/// Every column of `shape` is found in the cells, with a value of its kind.
pub open spec fn readable(
    shape: Seq<(Seq<char>, Kind)>,
    cells: Seq<(Seq<char>, ValueModel)>,
) -> bool {
    forall|i: int|
        0 <= i < shape.len() ==> reads(cells, (#[trigger] shape[i]).0, shape[i].1, true)
}

/// The cells read by the names of `shape`, in the order of `shape`; nothing
/// where a column is missing or holds a value of another kind.
pub open spec fn read(shape: Seq<(Seq<char>, Kind)>, cells: Seq<(Seq<char>, ValueModel)>) -> Option<
    Seq<(Seq<char>, ValueModel)>,
> {
    if readable(shape, cells) {
        Some(Seq::new(shape.len(), |i: int| (shape[i].0, lookup(cells, shape[i].0)->0)))
    } else {
        None
    }
}

/// The cells have the names of `shape`, in its order, and values of its
/// kinds.
pub open spec fn shaped(
    cells: Seq<(Seq<char>, ValueModel)>,
    shape: Seq<(Seq<char>, Kind)>,
) -> bool {
    &&& cells.len() == shape.len()
    &&& forall|i: int|
        0 <= i < shape.len() ==> (#[trigger] cells[i]).0 == shape[i].0 && fits(
            shape[i].1,
            cells[i].1,
        )
}

/// No two columns of `shape` have the same name.
pub open spec fn distinct_names(shape: Seq<(Seq<char>, Kind)>) -> bool {
    forall|i: int, j: int|
        0 <= i < j < shape.len() ==> (#[trigger] shape[i]).0 != (#[trigger] shape[j]).0
}

/// There is at most one first cell of a name.
pub proof fn lemma_first_named_unique(
    cells: Seq<(Seq<char>, ValueModel)>,
    name: Seq<char>,
    folded: bool,
    i: int,
    j: int,
)
    requires
        first_named(cells, name, folded, i),
        first_named(cells, name, folded, j),
    ensures
        i == j,
{
    if i < j {
        assert(!names(cells, name, folded, i));
    }
    if j < i {
        assert(!names(cells, name, folded, j));
    }
}

/// Where cell `i` is the first with exactly the name `name`, `name` stands
/// for it.
pub proof fn lemma_lookup_exact(cells: Seq<(Seq<char>, ValueModel)>, name: Seq<char>, i: int)
    requires
        first_named(cells, name, false, i),
    ensures
        position(cells, name) == Some(i),
        lookup(cells, name) == Some(cells[i].1),
{
    let k = choose|k: int| first_named(cells, name, false, k);
    lemma_first_named_unique(cells, name, false, i, k);
}

/// Cells that have the shape of a record with distinct column names are
/// read back as they are.
pub proof fn lemma_read_shaped(cells: Seq<(Seq<char>, ValueModel)>, shape: Seq<(Seq<char>, Kind)>)
    requires
        shaped(cells, shape),
        distinct_names(shape),
    ensures
        read(shape, cells) == Some(cells),
{
    assert forall|i: int| 0 <= i < shape.len() implies lookup(cells, (#[trigger] shape[i]).0)
        == Some(cells[i].1) by {
        assert(cells[i].0 == shape[i].0);
        assert forall|k: int| 0 <= k < i implies !names(cells, shape[i].0, false, k) by {
            assert(cells[k].0 == shape[k].0);
        }
        lemma_lookup_exact(cells, shape[i].0, i);
    }
    assert forall|i: int| 0 <= i < shape.len() implies fits(
        (#[trigger] shape[i]).1,
        lookup(cells, shape[i].0)->0,
    ) by {
        assert(fits(shape[i].1, cells[i].1));
    }
    assert(Seq::new(shape.len(), |i: int| (shape[i].0, lookup(cells, shape[i].0)->0)) =~= cells);
}

/// No two columns of `shape` have the same name up to the case of ASCII
/// letters.
pub open spec fn distinct_folded(shape: Seq<(Seq<char>, Kind)>) -> bool {
    forall|i: int, j: int|
        0 <= i < shape.len() && 0 <= j < shape.len() && i != j ==> !same_folded(
            (#[trigger] shape[i]).0,
            (#[trigger] shape[j]).0,
        )
}

/// The cells have the names of `shape` up to the case of ASCII letters, in
/// its order, and values of its kinds.
pub open spec fn shaped_folded(
    cells: Seq<(Seq<char>, ValueModel)>,
    shape: Seq<(Seq<char>, Kind)>,
) -> bool {
    &&& cells.len() == shape.len()
    &&& forall|i: int|
        0 <= i < shape.len() ==> same_folded((#[trigger] cells[i]).0, shape[i].0) && fits(
            shape[i].1,
            cells[i].1,
        )
}

/// The values of the cells under the names of `shape`.
pub open spec fn renamed(
    cells: Seq<(Seq<char>, ValueModel)>,
    shape: Seq<(Seq<char>, Kind)>,
) -> Seq<(Seq<char>, ValueModel)> {
    Seq::new(shape.len(), |i: int| (shape[i].0, cells[i].1))
}

/// Names that differ up to case differ.
pub proof fn lemma_folded_distinct(shape: Seq<(Seq<char>, Kind)>)
    requires
        distinct_folded(shape),
    ensures
        distinct_names(shape),
{
    assert forall|i: int, j: int| 0 <= i < j < shape.len() implies (#[trigger] shape[i]).0 != (
    #[trigger] shape[j]).0 by {
        lemma_same_folded(shape[i].0, shape[i].0, shape[i].0);
    }
}

/// Equality up to the case of ASCII letters is an equivalence.
pub proof fn lemma_same_folded(a: Seq<char>, b: Seq<char>, c: Seq<char>)
    ensures
        same_folded(a, a),
        same_folded(a, b) ==> same_folded(b, a),
        same_folded(a, b) && same_folded(b, c) ==> same_folded(a, c),
{
    if same_folded(a, b) {
        assert forall|i: int| 0 <= i < b.len() implies lower(#[trigger] b[i]) == lower(a[i]) by {
            assert(lower(a[i]) == lower(b[i]));
        }
        if same_folded(b, c) {
            assert forall|i: int| 0 <= i < a.len() implies lower(#[trigger] a[i]) == lower(
                c[i],
            ) by {
                assert(lower(b[i]) == lower(c[i]));
            }
        }
    }
}

/// Where a cell has the name, there is a first cell that has it.
pub proof fn lemma_first_exists(
    cells: Seq<(Seq<char>, ValueModel)>,
    name: Seq<char>,
    folded: bool,
    i: int,
)
    requires
        names(cells, name, folded, i),
    ensures
        exists|j: int| 0 <= j <= i && first_named(cells, name, folded, j),
    decreases i,
{
    if exists|k: int| 0 <= k < i && names(cells, name, folded, k) {
        let k = choose|k: int| 0 <= k < i && names(cells, name, folded, k);
        lemma_first_exists(cells, name, folded, k);
    } else {
        assert(first_named(cells, name, folded, i));
    }
}

/// Cells whose names were folded, as a database does with names that are
/// not quoted, are read as the cells with the names of the shape: each
/// column is found under its name in another case, if no two columns have
/// the same name up to case.
pub proof fn lemma_read_folded(cells: Seq<(Seq<char>, ValueModel)>, shape: Seq<(Seq<char>, Kind)>)
    requires
        shaped_folded(cells, shape),
        distinct_folded(shape),
    ensures
        read(shape, cells) == Some(renamed(cells, shape)),
{
    assert forall|i: int| 0 <= i < shape.len() implies lookup(cells, (#[trigger] shape[i]).0)
        == Some(cells[i].1) by {
        let name = shape[i].0;
        assert(same_folded(cells[i].0, name));
        assert forall|j: int, folded: bool| names(cells, name, folded, j) implies j == i by {
            assert(same_folded(cells[j].0, shape[j].0));
            lemma_same_folded(cells[j].0, name, name);
            lemma_same_folded(cells[j].0, shape[j].0, name);
            lemma_same_folded(shape[j].0, cells[j].0, name);
            assert(same_folded(cells[j].0, name));
            assert(same_folded(shape[j].0, name));
        }
        assert(names(cells, name, true, i));
        lemma_first_exists(cells, name, true, i);
        let f = choose|f: int| first_named(cells, name, true, f);
        assert(f == i);
        if exists|e: int| first_named(cells, name, false, e) {
            let e = choose|e: int| first_named(cells, name, false, e);
            assert(names(cells, name, false, e));
            assert(e == i);
        }
        assert(position(cells, name) == Some(i));
    }
    assert forall|i: int| 0 <= i < shape.len() implies reads(
        cells,
        (#[trigger] shape[i]).0,
        shape[i].1,
        true,
    ) by {
        assert(fits(shape[i].1, cells[i].1));
    }
    assert(read(shape, cells)->0 =~= renamed(cells, shape));
}

/// Reading goes by name alone: cells in which every name stands for the
/// same value are read alike, whatever their order.
pub proof fn lemma_read_by_name(
    shape: Seq<(Seq<char>, Kind)>,
    a: Seq<(Seq<char>, ValueModel)>,
    b: Seq<(Seq<char>, ValueModel)>,
)
    requires
        forall|name: Seq<char>| lookup(a, name) == lookup(b, name),
    ensures
        read(shape, a) == read(shape, b),
{
    if readable(shape, a) {
        assert(readable(shape, b));
        assert(read(shape, a)->0 =~= read(shape, b)->0);
    } else {
        assert(!readable(shape, b));
    }
}

/// The cells of a vector of named values.
pub open spec fn cells_of(v: Seq<(String, Value)>) -> Seq<(Seq<char>, ValueModel)> {
    v.map_values(|c: (String, Value)| (c.0@, c.1@))
}

/// The values of a vector of arguments.
pub open spec fn values_of(v: Seq<Value>) -> Seq<ValueModel> {
    v.map_values(|x: Value| x@)
}

/// An optional integer as a value: none is no value.
pub open spec fn opt_int_model(o: Option<i32>) -> ValueModel {
    match o {
        Some(v) => ValueModel::Int(v),
        None => ValueModel::Null,
    }
}

/// An optional text as a value: none is no value.
pub open spec fn opt_text_model(o: Option<String>) -> ValueModel {
    match o {
        Some(s) => ValueModel::Text(s@),
        None => ValueModel::Null,
    }
}

/// An optional integer as a value: none is no value.
pub fn opt_int_value(o: Option<i32>) -> (r: Value)
    ensures
        r@ == opt_int_model(o),
{
    match o {
        Some(v) => Value::Int(v),
        None => Value::Null,
    }
}

/// An optional text as a value: none is no value.
pub fn opt_text_value(o: &Option<String>) -> (r: Value)
    ensures
        r@ == opt_text_model(*o),
{
    match o {
        Some(s) => Value::Text(s.clone()),
        None => Value::Null,
    }
}

/// The lower-case form of an ASCII capital; any other character itself.
pub fn to_lower(c: char) -> (r: char)
    ensures
        r == lower(c),
{
    if 'A' <= c && c <= 'Z' {
        ((c as u8) + 32) as char
    } else {
        c
    }
}

/// Whether the two texts are equal, exactly or up to the case of their
/// ASCII letters.
pub fn same_name(a: &Vec<char>, b: &Vec<char>, folded: bool) -> (r: bool)
    ensures
        r == if folded {
            same_folded(a@, b@)
        } else {
            a@ == b@
        },
{
    if a.len() != b.len() {
        return false;
    }
    let mut i: usize = 0;
    while i < a.len()
        invariant
            a.len() == b.len(),
            i <= a.len(),
            forall|k: int| 0 <= k < i ==> if folded {
                lower(#[trigger] a@[k]) == lower(b@[k])
            } else {
                a@[k] == b@[k]
            },
        decreases a.len() - i,
    {
        let same = if folded {
            to_lower(a[i]) == to_lower(b[i])
        } else {
            a[i] == b[i]
        };
        if !same {
            return false;
        }
        i += 1;
    }
    proof {
        if !folded {
            assert(a@ =~= b@);
        }
    }
    true
}

/// A copy of the bytes.
pub fn copy_bytes(v: &Vec<u8>) -> (r: Vec<u8>)
    ensures
        r@ == v@,
{
    let mut r: Vec<u8> = Vec::new();
    let mut i: usize = 0;
    while i < v.len()
        invariant
            i <= v.len(),
            r@ == v@.take(i as int),
        decreases v.len() - i,
    {
        r.push(v[i]);
        i += 1;
        proof {
            assert(r@ =~= v@.take(i as int));
        }
    }
    proof {
        assert(v@.take(v.len() as int) =~= v@);
    }
    r
}

/// A copy of the value.
pub fn copy_value(v: &Value) -> (r: Value)
    ensures
        r@ == v@,
{
    match v {
        Value::Null => Value::Null,
        Value::Int(x) => Value::Int(*x),
        Value::Text(s) => Value::Text(s.clone()),
        Value::Bool(b) => Value::Bool(*b),
        Value::Bytes(b) => Value::Bytes(copy_bytes(b)),
        Value::Time(t) => Value::Time(*t),
    }
}

/// A statement with the arguments for its positional placeholders, in
/// their order.
#[derive(Debug, Clone, PartialEq, Eq)]
pub struct Statement {
    pub sql: String,
    pub args: Vec<Value>,
}

impl View for Statement {
    type V = (Seq<char>, Seq<ValueModel>);

    open spec fn view(&self) -> (Seq<char>, Seq<ValueModel>) {
        (self.sql@, values_of(self.args@))
    }
}

/// A row of a result set: named values, in the order of the result set.
#[derive(Debug, Clone, PartialEq, Eq)]
pub struct Row {
    cells: Vec<(String, Value)>,
}

impl View for Row {
    type V = Seq<(Seq<char>, ValueModel)>;

    closed spec fn view(&self) -> Seq<(Seq<char>, ValueModel)> {
        cells_of(self.cells@)
    }
}

impl Row {
    /// A row without cells.
    pub fn new() -> (r: Row)
        ensures
            r@ == Seq::<(Seq<char>, ValueModel)>::empty(),
    {
        let r = Row { cells: Vec::new() };
        proof {
            assert(cells_of(r.cells@) =~= Seq::<(Seq<char>, ValueModel)>::empty());
        }
        r
    }

    /// The row with one more cell at its end.
    pub fn with(self, name: &str, value: Value) -> (r: Row)
        ensures
            r@ == self@.push((name@, value@)),
    {
        let mut r = self;
        r.cells.push((name.to_owned(), value));
        proof {
            assert(cells_of(r.cells@) =~= cells_of(self.cells@).push((name@, value@)));
        }
        r
    }

    /// The number of cells.
    pub fn len(&self) -> (n: usize)
        ensures
            n == self@.len(),
    {
        self.cells.len()
    }

    /// The value of the cell at `index`.
    pub fn at(&self, index: usize) -> (r: Option<&Value>)
        ensures
            match r {
                Some(v) => index < self@.len() && self@[index as int].1 == v@,
                None => index >= self@.len(),
            },
    {
        if index < self.cells.len() {
            Some(&self.cells[index].1)
        } else {
            None
        }
    }

    /// The index of the first cell whose name is `name`, exactly or up to
    /// the case of ASCII letters.
    fn first(&self, name: &Vec<char>, folded: bool) -> (r: Option<usize>)
        ensures
            match r {
                Some(i) => first_named(self@, name@, folded, i as int),
                None => forall|k: int| !names(self@, name@, folded, k),
            },
    {
        let mut i: usize = 0;
        while i < self.cells.len()
            invariant
                i <= self.cells.len(),
                forall|k: int| 0 <= k < i ==> !names(self@, name@, folded, k),
            decreases self.cells.len() - i,
        {
            let own = chars_of(self.cells[i].0.as_str());
            if same_name(&own, name, folded) {
                return Some(i);
            }
            i += 1;
        }
        None
    }

    /// The value that `name` stands for: that of the first cell with
    /// exactly this name; where there is none, that of the first cell whose
    /// name equals it up to the case of ASCII letters.
    pub fn get(&self, name: &str) -> (r: Option<&Value>)
        ensures
            match r {
                Some(v) => lookup(self@, name@) == Some(v@),
                None => lookup(self@, name@) is None,
            },
    {
        let wanted = chars_of(name);
        match self.first(&wanted, false) {
            Some(i) => {
                proof {
                    lemma_lookup_exact(self@, name@, i as int);
                }
                Some(&self.cells[i].1)
            },
            None => {
                match self.first(&wanted, true) {
                    Some(i) => {
                        proof {
                            let k = choose|k: int| first_named(self@, name@, true, k);
                            lemma_first_named_unique(self@, name@, true, i as int, k);
                        }
                        Some(&self.cells[i].1)
                    },
                    None => None,
                }
            },
        }
    }

    /// The value that `name` stands for, if it can stand in a column of
    /// this kind.
    pub fn take(&self, name: &str, kind: Kind) -> (r: Option<Value>)
        ensures
            match r {
                Some(v) => lookup(self@, name@) == Some(v@) && fits(kind, v@),
                None => !(lookup(self@, name@) is Some && fits(kind, lookup(self@, name@)->0)),
            },
    {
        match self.get(name) {
            Some(v) => {
                let ok = match kind {
                    Kind::Int => matches!(v, Value::Int(_)),
                    Kind::Text => matches!(v, Value::Text(_)),
                    Kind::Bool => matches!(v, Value::Bool(_)),
                    Kind::Bytes => matches!(v, Value::Bytes(_)),
                    Kind::Time => matches!(v, Value::Time(_)),
                    Kind::OptInt => matches!(v, Value::Int(_) | Value::Null),
                    Kind::OptText => matches!(v, Value::Text(_) | Value::Null),
                };
                if ok {
                    Some(copy_value(v))
                } else {
                    None
                }
            },
            None => None,
        }
    }

    /// The integer that `name` stands for.
    pub fn integer(&self, name: &str) -> (r: Option<i32>)
        ensures
            reads(self@, name@, Kind::Int, r is Some),
            r is Some ==> lookup(self@, name@) == Some(ValueModel::Int(r->0)),
    {
        match self.take(name, Kind::Int) {
            Some(Value::Int(v)) => Some(v),
            _ => None,
        }
    }

    /// The text that `name` stands for.
    pub fn text(&self, name: &str) -> (r: Option<String>)
        ensures
            reads(self@, name@, Kind::Text, r is Some),
            r is Some ==> lookup(self@, name@) == Some(ValueModel::Text(r->0@)),
    {
        match self.take(name, Kind::Text) {
            Some(Value::Text(v)) => Some(v),
            _ => None,
        }
    }

    /// The truth value that `name` stands for.
    pub fn boolean(&self, name: &str) -> (r: Option<bool>)
        ensures
            reads(self@, name@, Kind::Bool, r is Some),
            r is Some ==> lookup(self@, name@) == Some(ValueModel::Bool(r->0)),
    {
        match self.take(name, Kind::Bool) {
            Some(Value::Bool(v)) => Some(v),
            _ => None,
        }
    }

    /// The bytes that `name` stands for.
    pub fn bytes(&self, name: &str) -> (r: Option<Vec<u8>>)
        ensures
            reads(self@, name@, Kind::Bytes, r is Some),
            r is Some ==> lookup(self@, name@) == Some(ValueModel::Bytes(r->0@)),
    {
        match self.take(name, Kind::Bytes) {
            Some(Value::Bytes(v)) => Some(v),
            _ => None,
        }
    }

    /// The date and time that `name` stands for.
    pub fn time(&self, name: &str) -> (r: Option<Timestamp>)
        ensures
            reads(self@, name@, Kind::Time, r is Some),
            r is Some ==> lookup(self@, name@) == Some(ValueModel::Time(r->0)),
    {
        match self.take(name, Kind::Time) {
            Some(Value::Time(v)) => Some(v),
            _ => None,
        }
    }

    /// The integer, or the absence of a value, that `name` stands for.
    pub fn opt_integer(&self, name: &str) -> (r: Option<Option<i32>>)
        ensures
            reads(self@, name@, Kind::OptInt, r is Some),
            r is Some ==> lookup(self@, name@) == Some(opt_int_model(r->0)),
    {
        match self.take(name, Kind::OptInt) {
            Some(Value::Int(v)) => Some(Some(v)),
            Some(Value::Null) => Some(None),
            _ => None,
        }
    }

    /// The text, or the absence of a value, that `name` stands for.
    pub fn opt_text(&self, name: &str) -> (r: Option<Option<String>>)
        ensures
            reads(self@, name@, Kind::OptText, r is Some),
            r is Some ==> lookup(self@, name@) == Some(opt_text_model(r->0)),
    {
        match self.take(name, Kind::OptText) {
            Some(Value::Text(v)) => Some(Some(v)),
            Some(Value::Null) => Some(None),
            _ => None,
        }
    }
}

} // verus!
