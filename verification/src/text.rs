//! Character-level text operations: occurrence search, replacement of every
//! occurrence of a pattern, decimal rendering and joining.
//!
//! Every string is modelled by its sequence of characters. The spec functions
//! of this module are the vocabulary in which the statement builders state
//! what SQL they emit.

use vstd::prelude::*;
use vstd::std_specs::iter::IteratorSpec;
use vstd::string::*;

verus! {

/// `String::push` appends one character to the end of the string.
pub assume_specification[ String::push ](s: &mut String, c: char)
    ensures
        final(s)@ == old(s)@.push(c),
;

/// `p` occurs in `s` starting at index `i`.
pub open spec fn occurs_at(s: Seq<char>, p: Seq<char>, i: int) -> bool {
    &&& 0 <= i
    &&& i + p.len() <= s.len()
    &&& forall|j: int| 0 <= j < p.len() ==> s[i + j] == #[trigger] p[j]
}

/// `p` occurs somewhere in `s`. The empty pattern occurs in every text.
pub open spec fn contains(s: Seq<char>, p: Seq<char>) -> bool {
    exists|i: int| occurs_at(s, p, i)
}

/// `s` with every occurrence of `p` replaced by `w`, scanning from the left
/// and never revisiting replaced text. With an empty `p`, `w` is inserted
/// before every character and once more at the end.
pub open spec fn replace_all(s: Seq<char>, p: Seq<char>, w: Seq<char>) -> Seq<char>
    decreases s.len(),
{
    if s.len() == 0 {
        if p.len() == 0 {
            w
        } else {
            s
        }
    } else if p.len() == 0 {
        w + seq![s[0]] + replace_all(s.skip(1), p, w)
    } else if occurs_at(s, p, 0) {
        w + replace_all(s.skip(p.len() as int), p, w)
    } else {
        seq![s[0]] + replace_all(s.skip(1), p, w)
    }
}

/// The character that writes the decimal digit `d`.
pub open spec fn digit(d: int) -> char {
    ((d + 48) as u8) as char
}

/// The decimal digits of a natural number, most significant first, without
/// leading zeros.
pub open spec fn digits(n: nat) -> Seq<char>
    decreases n,
{
    if n < 10 {
        seq![digit(n as int)]
    } else {
        digits(n / 10).push(digit((n % 10) as int))
    }
}

/// The decimal text of an integer: a minus sign for negative numbers, then
/// its digits.
pub open spec fn decimal(n: int) -> Seq<char> {
    if n < 0 {
        seq!['-'] + digits((-n) as nat)
    } else {
        digits(n as nat)
    }
}

/// The texts of `parts`, in order, with `sep` between neighbours.
pub open spec fn joined(parts: Seq<Seq<char>>, sep: Seq<char>) -> Seq<char>
    decreases parts.len(),
{
    if parts.len() == 0 {
        seq![]
    } else if parts.len() == 1 {
        parts[0]
    } else {
        joined(parts.drop_last(), sep) + sep + parts.last()
    }
}

/// The view of an optional string slice.
pub open spec fn opt_view(o: Option<&str>) -> Option<Seq<char>> {
    match o {
        Some(s) => Some(s@),
        None => None,
    }
}

/// The view of an optional owned string.
pub open spec fn opt_text(o: Option<String>) -> Option<Seq<char>> {
    match o {
        Some(s) => Some(s@),
        None => None,
    }
}

/// The views of a vector of strings, in order.
pub open spec fn texts(v: Seq<String>) -> Seq<Seq<char>> {
    v.map_values(|s: String| s@)
}

/// Borrows the text of an optional string.
pub fn opt_str(o: &Option<String>) -> (r: Option<&str>)
    ensures
        opt_view(r) == opt_text(*o),
{
    match o {
        Some(s) => Some(s.as_str()),
        None => None,
    }
}

/// The characters of `s`, in order.
pub fn chars_of(s: &str) -> (v: Vec<char>)
    ensures
        v@ == s@,
{
    broadcast use vstd::string::group_string_axioms;

    let mut v: Vec<char> = Vec::new();
    let mut it = s.chars();
    loop
        invariant
            v@ + it.remaining() == s@,
            it.decrease() is Some,
        ensures
            v@ == s@,
        decreases it.decrease()->0,
    {
        match it.next() {
            Some(c) => {
                v.push(c);
            },
            None => {
                assert(v@ =~= s@);
                break ;
            },
        }
    }
    v
}

/// Whether `p` occurs in `t` at index `i`.
pub fn matches_at(t: &Vec<char>, p: &Vec<char>, i: usize) -> (r: bool)
    requires
        i <= t.len(),
    ensures
        r == occurs_at(t@, p@, i as int),
{
    if p.len() > t.len() - i {
        return false;
    }
    let mut j: usize = 0;
    while j < p.len()
        invariant
            i + p.len() <= t.len(),
            j <= p.len(),
            forall|k: int| 0 <= k < j ==> t@[i + k] == #[trigger] p@[k],
        decreases p.len() - j,
    {
        if t[i + j] != p[j] {
            return false;
        }
        j += 1;
    }
    true
}

/// Replaces every occurrence of `p` in `t` by `w` and reports whether there
/// was any.
pub fn replace_chars(t: &Vec<char>, p: &Vec<char>, w: &str) -> (r: (String, bool))
    ensures
        r.0@ == replace_all(t@, p@, w@),
        r.1 == contains(t@, p@),
{
    let mut out = String::new();
    let mut i: usize = 0;
    proof {
        assert(t@.skip(0) =~= t@);
        assert(out@ + replace_all(t@, p@, w@) =~= replace_all(t@, p@, w@));
    }
    if p.len() == 0 {
        assert(occurs_at(t@, p@, 0));
        while i < t.len()
            invariant
                p@.len() == 0,
                i <= t.len(),
                out@ + replace_all(t@.skip(i as int), p@, w@) == replace_all(t@, p@, w@),
            decreases t.len() - i,
        {
            let ghost rest = t@.skip(i as int);
            let ghost before = out@;
            out.append(w);
            out.push(t[i]);
            i += 1;
            proof {
                assert(rest.skip(1) =~= t@.skip(i as int));
                assert(out@ + replace_all(t@.skip(i as int), p@, w@) =~= before + (w@
                    + seq![rest[0]] + replace_all(rest.skip(1), p@, w@)));
            }
        }
        let ghost before = out@;
        out.append(w);
        proof {
            assert(t@.skip(i as int).len() == 0);
            assert(out@ =~= before + replace_all(t@.skip(i as int), p@, w@));
        }
        return (out, true);
    }
    let mut found = false;
    while i < t.len()
        invariant
            p@.len() > 0,
            i <= t.len(),
            out@ + replace_all(t@.skip(i as int), p@, w@) == replace_all(t@, p@, w@),
            found ==> contains(t@, p@),
            !found ==> forall|k: int| 0 <= k < i ==> !occurs_at(t@, p@, k),
        decreases t.len() - i,
    {
        let ghost rest = t@.skip(i as int);
        let ghost before = out@;
        let hit = matches_at(t, p, i);
        proof {
            lemma_occurs_at_skip(t@, p@, i as int);
        }
        if hit {
            out.append(w);
            i += p.len();
            found = true;
            proof {
                assert(rest.skip(p@.len() as int) =~= t@.skip(i as int));
                assert(out@ + replace_all(t@.skip(i as int), p@, w@) =~= before + (w@
                    + replace_all(rest.skip(p@.len() as int), p@, w@)));
            }
        } else {
            out.push(t[i]);
            i += 1;
            proof {
                assert(rest.skip(1) =~= t@.skip(i as int));
                assert(out@ + replace_all(t@.skip(i as int), p@, w@) =~= before + (seq![rest[0]]
                    + replace_all(rest.skip(1), p@, w@)));
            }
        }
    }
    proof {
        assert(t@.skip(i as int).len() == 0);
        assert(out@ + Seq::<char>::empty() =~= out@);
    }
    (out, found)
}

/// An occurrence in a suffix is an occurrence in the whole text, shifted.
pub proof fn lemma_occurs_at_skip(s: Seq<char>, p: Seq<char>, i: int)
    requires
        0 <= i <= s.len(),
    ensures
        occurs_at(s.skip(i), p, 0) == occurs_at(s, p, i),
{
    if occurs_at(s, p, i) {
        assert forall|j: int| 0 <= j < p.len() implies s.skip(i)[0 + j] == #[trigger] p[j] by {
            assert(s.skip(i)[j] == s[i + j]);
        }
    }
    if occurs_at(s.skip(i), p, 0) {
        assert forall|j: int| 0 <= j < p.len() implies s[i + j] == #[trigger] p[j] by {
            assert(s.skip(i)[0 + j] == s[i + j]);
        }
    }
}

/// The decimal digit `d` as a character.
pub fn digit_char(d: u8) -> (c: char)
    requires
        d < 10,
    ensures
        c == digit(d as int),
{
    (d + 48) as char
}

/// The decimal digits of `n`.
pub fn natural_string(n: u64) -> (s: String)
    ensures
        s@ == digits(n as nat),
{
    let mut rev: Vec<char> = Vec::new();
    rev.push(digit_char((n % 10) as u8));
    let mut m: u64 = n / 10;
    while m != 0
        invariant
            rev@.len() > 0,
            digits(n as nat) == if m == 0 {
                rev@.reverse()
            } else {
                digits(m as nat) + rev@.reverse()
            },
        decreases m,
    {
        let ghost cur = m;
        let ghost before = rev@;
        rev.push(digit_char((m % 10) as u8));
        m = m / 10;
        proof {
            let d = digit((cur % 10) as int);
            assert(rev@.reverse() =~= seq![d] + before.reverse());
            if m == 0 {
                assert(digits(cur as nat) + before.reverse() =~= rev@.reverse());
            } else {
                assert(digits(cur as nat) + before.reverse() =~= digits(m as nat)
                    + rev@.reverse());
            }
        }
    }
    let mut s = String::new();
    let mut k: usize = rev.len();
    while k > 0
        invariant
            k <= rev.len(),
            s@ == rev@.reverse().take(rev.len() - k),
        decreases k,
    {
        k -= 1;
        s.push(rev[k]);
        proof {
            assert(rev@.reverse()[rev.len() - k - 1] == rev@[k as int]);
            assert(s@ =~= rev@.reverse().take(rev.len() - k));
        }
    }
    proof {
        assert(rev@.reverse().take(rev.len() as int) =~= rev@.reverse());
    }
    s
}

/// The decimal text of `n`.
pub fn decimal_string(n: i64) -> (s: String)
    ensures
        s@ == decimal(n as int),
{
    if n < 0 {
        let magnitude: u64 = (-(n + 1)) as u64 + 1;
        let mut s = String::new();
        s.push('-');
        let d = natural_string(magnitude);
        s.append(d.as_str());
        proof {
            assert(s@ =~= decimal(n as int));
        }
        s
    } else {
        natural_string(n as u64)
    }
}

/// Decimal digits are never empty, and none of them is a dollar sign, a
/// letter or an underscore.
pub proof fn lemma_digits_are_digits(n: nat)
    ensures
        digits(n).len() > 0,
        forall|i: int| 0 <= i < digits(n).len() ==> '0' <= #[trigger] digits(n)[i] <= '9',
    decreases n,
{
    if n >= 10 {
        lemma_digits_are_digits(n / 10);
    }
}

/// The number that the digits write: the inverse of [`digits`].
pub open spec fn number_of(s: Seq<char>) -> int
    decreases s.len(),
{
    if s.len() == 0 {
        0
    } else {
        number_of(s.drop_last()) * 10 + ((s.last() as u8) as int - 48)
    }
}

/// The digits of a number write that number.
pub proof fn lemma_number_of_digits(n: nat)
    ensures
        number_of(digits(n)) == n,
    decreases n,
{
    if n < 10 {
        assert(digits(n).drop_last() =~= Seq::<char>::empty());
        assert(number_of(digits(n).drop_last()) == 0);
    } else {
        lemma_number_of_digits(n / 10);
        assert(digits(n).drop_last() =~= digits(n / 10));
    }
}

/// Different integers have different decimal texts.
pub proof fn lemma_decimal_injective(a: int, b: int)
    requires
        decimal(a) == decimal(b),
    ensures
        a == b,
{
    let x: nat = if a < 0 {
        (-a) as nat
    } else {
        a as nat
    };
    let y: nat = if b < 0 {
        (-b) as nat
    } else {
        b as nat
    };
    lemma_digits_are_digits(x);
    lemma_digits_are_digits(y);
    lemma_number_of_digits(x);
    lemma_number_of_digits(y);
    if a < 0 && b < 0 {
        assert((seq!['-'] + digits(x)).skip(1) =~= digits(x));
        assert((seq!['-'] + digits(y)).skip(1) =~= digits(y));
    } else if a < 0 {
        assert(decimal(a)[0] == '-');
        assert(decimal(b)[0] == digits(y)[0]);
    } else if b < 0 {
        assert(decimal(b)[0] == '-');
        assert(decimal(a)[0] == digits(x)[0]);
    }
}

} // verus!
