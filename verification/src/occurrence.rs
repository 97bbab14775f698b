//! Laws of occurrence and replacement.
//!
//! A template is read here as a list of pieces laid end to end: literal text,
//! placeholders, and fragments already put in place. The central law,
//! [`lemma_fill_hole`], says when replacing a placeholder in the flattened
//! text touches exactly the one piece that is this placeholder.

use crate::text::{contains, digits, joined, lemma_digits_are_digits, occurs_at, replace_all};
use vstd::prelude::*;

verus! {

/// No character of `p` after its first is `c`.
pub open spec fn tail_foreign(c: char, p: Seq<char>) -> bool {
    forall|j: int| 0 < j < p.len() ==> #[trigger] p[j] != c
}

/// `p` is not empty and its first character occurs nowhere else in it.
pub open spec fn distinct_head(p: Seq<char>) -> bool {
    p.len() > 0 && tail_foreign(p[0], p)
}

/// As far as `a` reaches from index `i`, it agrees with `p`: an occurrence of
/// `p` may begin there, depending on what follows `a`.
pub open spec fn begins_at(a: Seq<char>, p: Seq<char>, i: int) -> bool {
    &&& 0 <= i < a.len()
    &&& forall|j: int| 0 <= j < p.len() && i + j < a.len() ==> a[i + j] == #[trigger] p[j]
}

/// No occurrence of `p` can begin inside `a`, whatever text follows `a`.
pub open spec fn clear_of(a: Seq<char>, p: Seq<char>) -> bool {
    forall|i: int| 0 <= i < a.len() ==> !#[trigger] begins_at(a, p, i)
}

/// `a` holds no dollar sign.
pub open spec fn no_dollar(a: Seq<char>) -> bool {
    forall|i: int| 0 <= i < a.len() ==> #[trigger] a[i] != '$'
}

/// `p` is a dollar sign followed by lower-case letters and underscores.
pub open spec fn is_name(p: Seq<char>) -> bool {
    &&& p.len() >= 2
    &&& p[0] == '$'
    &&& forall|j: int| 0 < j < p.len() ==> name_char(#[trigger] p[j])
}

/// A lower-case letter or an underscore.
pub open spec fn name_char(c: char) -> bool {
    ('a' <= c && c <= 'z') || c == '_'
}

/// `q` and `p` differ at index `k`, which lies in both.
pub open spec fn differ_at(q: Seq<char>, p: Seq<char>, k: int) -> bool {
    0 <= k < q.len() && k < p.len() && q[k] != p[k]
}

/// The pieces laid end to end.
pub open spec fn flat(segs: Seq<Seq<char>>) -> Seq<char>
    decreases segs.len(),
{
    if segs.len() == 0 {
        seq![]
    } else {
        segs[0] + flat(segs.skip(1))
    }
}

/// Piece `i` cannot take part in an occurrence of `p` that begins in it:
/// either nothing like `p` begins in it, or it holds no `p` and the piece
/// after it starts with a character that `p` has at most as its first.
pub open spec fn inert(segs: Seq<Seq<char>>, i: int, p: Seq<char>) -> bool {
    ||| clear_of(segs[i], p)
    ||| {
        &&& !contains(segs[i], p)
        &&& i + 1 < segs.len()
        &&& segs[i + 1].len() > 0
        &&& tail_foreign(segs[i + 1][0], p)
    }
}

/// Text without a dollar sign is clear of every pattern that starts with one.
pub proof fn lemma_plain_clear(a: Seq<char>, p: Seq<char>)
    requires
        no_dollar(a),
        p.len() > 0,
        p[0] == '$',
    ensures
        clear_of(a, p),
{
    assert forall|i: int| 0 <= i < a.len() implies !#[trigger] begins_at(a, p, i) by {
        assert(a[i + 0] != p[0]);
    }
}

/// A name is clear of every name that differs from it at some index of both.
pub proof fn lemma_name_clear(q: Seq<char>, p: Seq<char>, k: int)
    requires
        is_name(q),
        is_name(p),
        differ_at(q, p, k),
    ensures
        clear_of(q, p),
{
    assert forall|i: int| 0 <= i < q.len() implies !#[trigger] begins_at(q, p, i) by {
        if i == 0 {
            assert(q[0 + k] != p[k]);
        } else {
            assert(name_char(q[i]));
            assert(q[i + 0] != p[0]);
        }
    }
}

/// A name's first character occurs nowhere else in it.
pub proof fn lemma_name_distinct_head(p: Seq<char>)
    requires
        is_name(p),
    ensures
        distinct_head(p),
{
    assert forall|j: int| 0 < j < p.len() implies #[trigger] p[j] != p[0] by {
        assert(name_char(p[j]));
    }
}

/// A character that no name holds after its dollar sign is foreign to the
/// tail of every name.
pub proof fn lemma_tail_foreign(c: char, p: Seq<char>)
    requires
        is_name(p),
        !name_char(c),
    ensures
        tail_foreign(c, p),
{
    assert forall|j: int| 0 < j < p.len() implies #[trigger] p[j] != c by {
        assert(name_char(p[j]));
    }
}

/// Text that is clear of `p` does not contain `p`.
pub proof fn lemma_clear_absent(a: Seq<char>, p: Seq<char>)
    requires
        clear_of(a, p),
        p.len() > 0,
    ensures
        !contains(a, p),
{
    if contains(a, p) {
        let i = choose|i: int| occurs_at(a, p, i);
        assert(begins_at(a, p, i));
    }
}

/// Text that is clear of `p`, followed by text without `p`, holds no `p`.
pub proof fn lemma_clear_then_absent(a: Seq<char>, f: Seq<char>, p: Seq<char>)
    requires
        clear_of(a, p),
        !contains(f, p),
        p.len() > 0,
    ensures
        !contains(a + f, p),
{
    if contains(a + f, p) {
        let i = choose|i: int| occurs_at(a + f, p, i);
        lemma_no_start_in_clear(a, f, p, i);
        assert(occurs_at(f, p, i - a.len())) by {
            assert forall|j: int| 0 <= j < p.len() implies f[i - a.len() + j]
                == #[trigger] p[j] by {
                assert((a + f)[i + j] == f[i - a.len() + j]);
            }
        }
    }
}

/// An occurrence of `p` in `a + y` does not begin inside `a` when `a` is
/// clear of `p`.
pub proof fn lemma_no_start_in_clear(a: Seq<char>, y: Seq<char>, p: Seq<char>, i: int)
    requires
        clear_of(a, p),
        occurs_at(a + y, p, i),
        p.len() > 0,
    ensures
        i >= a.len(),
{
    if i < a.len() {
        assert(!begins_at(a, p, i));
        let j = choose|j: int| 0 <= j < p.len() && i + j < a.len() && a[i + j] != p[j];
        assert((a + y)[i + j] == a[i + j]);
    }
}

/// An occurrence of `p` in `f + y` does not begin inside `f` when `f` holds
/// no `p` and `y` starts with a character foreign to the tail of `p`.
pub proof fn lemma_no_start_in_guarded(f: Seq<char>, y: Seq<char>, p: Seq<char>, i: int)
    requires
        !contains(f, p),
        y.len() > 0,
        tail_foreign(y[0], p),
        occurs_at(f + y, p, i),
        p.len() > 0,
    ensures
        i >= f.len(),
{
    if i < f.len() {
        if i + p.len() <= f.len() {
            assert(occurs_at(f, p, i)) by {
                assert forall|j: int| 0 <= j < p.len() implies f[i + j] == #[trigger] p[j] by {
                    assert((f + y)[i + j] == f[i + j]);
                }
            }
        } else {
            let j = f.len() - i;
            assert((f + y)[i + j] == y[0]);
            assert(p[j] == y[0]);
        }
    }
}

/// Where `p` does not occur, replacing it changes nothing.
pub proof fn lemma_replace_absent(s: Seq<char>, p: Seq<char>, w: Seq<char>)
    requires
        p.len() > 0,
        !contains(s, p),
    ensures
        replace_all(s, p, w) == s,
    decreases s.len(),
{
    if s.len() > 0 {
        assert(!occurs_at(s, p, 0));
        assert forall|i: int| !occurs_at(s.skip(1), p, i) by {
            if occurs_at(s.skip(1), p, i) {
                assert forall|j: int| 0 <= j < p.len() implies s[i + 1 + j] == #[trigger] p[j] by {
                    assert(s.skip(1)[i + j] == s[i + 1 + j]);
                }
                assert(occurs_at(s, p, i + 1));
            }
        }
        lemma_replace_absent(s.skip(1), p, w);
        assert(seq![s[0]] + s.skip(1) =~= s);
    }
}

/// Replacement copies a prefix in which no occurrence begins.
pub proof fn lemma_replace_after_prefix(a: Seq<char>, y: Seq<char>, p: Seq<char>, w: Seq<char>)
    requires
        p.len() > 0,
        forall|i: int| 0 <= i < a.len() ==> !occurs_at(a + y, p, i),
    ensures
        replace_all(a + y, p, w) == a + replace_all(y, p, w),
    decreases a.len(),
{
    if a.len() == 0 {
        assert(a + y =~= y);
        assert(a + replace_all(y, p, w) =~= replace_all(y, p, w));
    } else {
        let s = a + y;
        let rest = a.skip(1);
        assert(!occurs_at(s, p, 0));
        assert(s.skip(1) =~= rest + y);
        assert forall|i: int| 0 <= i < rest.len() implies !occurs_at(rest + y, p, i) by {
            if occurs_at(rest + y, p, i) {
                assert forall|j: int| 0 <= j < p.len() implies s[i + 1 + j] == #[trigger] p[j] by {
                    assert((rest + y)[i + j] == s[i + 1 + j]);
                }
                assert(occurs_at(s, p, i + 1));
            }
        }
        lemma_replace_after_prefix(rest, y, p, w);
        assert(seq![s[0]] + (rest + replace_all(y, p, w)) =~= a + replace_all(y, p, w));
    }
}

/// The flattened pieces from piece `i` on begin with piece `i`.
pub proof fn lemma_flat_skip(segs: Seq<Seq<char>>, i: int)
    requires
        0 <= i < segs.len(),
    ensures
        flat(segs.skip(i)) == segs[i] + flat(segs.skip(i + 1)),
{
    assert(segs.skip(i).skip(1) =~= segs.skip(i + 1));
}

/// Replacing the placeholder that is piece `k` in the flattened pieces puts
/// `w` in the place of that piece and leaves every other piece as it is,
/// provided that every other piece is inert for the placeholder.
pub proof fn lemma_fill_hole(segs: Seq<Seq<char>>, k: int, w: Seq<char>)
    requires
        0 <= k < segs.len(),
        distinct_head(segs[k]),
        forall|i: int| 0 <= i < segs.len() && i != k ==> #[trigger] inert(segs, i, segs[k]),
    ensures
        contains(flat(segs), segs[k]),
        replace_all(flat(segs), segs[k], w) == flat(segs.update(k, w)),
{
    lemma_fill_from(segs, k, w, 0);
    assert(segs.skip(0) =~= segs);
    assert(segs.update(k, w).skip(0) =~= segs.update(k, w));
}

/// The law of [`lemma_fill_hole`] for the pieces from piece `i` on.
pub proof fn lemma_fill_from(segs: Seq<Seq<char>>, k: int, w: Seq<char>, i: int)
    requires
        0 <= k < segs.len(),
        0 <= i <= segs.len(),
        distinct_head(segs[k]),
        forall|i: int| 0 <= i < segs.len() && i != k ==> #[trigger] inert(segs, i, segs[k]),
    ensures
        i > k ==> !contains(flat(segs.skip(i)), segs[k]),
        i > k ==> flat(segs.update(k, w).skip(i)) == flat(segs.skip(i)),
        i <= k ==> contains(flat(segs.skip(i)), segs[k]),
        i <= k ==> replace_all(flat(segs.skip(i)), segs[k], w) == flat(segs.update(k, w).skip(i)),
    decreases segs.len() - i,
{
    let p = segs[k];
    let after = segs.update(k, w);
    if i == segs.len() {
        assert(flat(segs.skip(i)).len() == 0);
        assert(after.skip(i) =~= segs.skip(i));
        assert forall|j: int| !occurs_at(flat(segs.skip(i)), p, j) by {}
    } else {
        lemma_fill_from(segs, k, w, i + 1);
        lemma_flat_skip(segs, i);
        lemma_flat_skip(after, i);
        let a = segs[i];
        let y = flat(segs.skip(i + 1));
        let x = a + y;
        if i == k {
            assert(occurs_at(x, p, 0)) by {
                assert forall|j: int| 0 <= j < p.len() implies x[0 + j] == #[trigger] p[j] by {}
            }
            assert(x.skip(p.len() as int) =~= y);
            lemma_replace_absent(y, p, w);
        } else {
            assert(inert(segs, i, p));
            assert forall|j: int| 0 <= j < a.len() implies !occurs_at(x, p, j) by {
                if occurs_at(x, p, j) {
                    if clear_of(a, p) {
                        lemma_no_start_in_clear(a, y, p, j);
                    } else {
                        lemma_flat_skip(segs, i + 1);
                        lemma_no_start_in_guarded(a, y, p, j);
                    }
                }
            }
            if i > k {
                assert forall|j: int| !occurs_at(x, p, j) by {
                    if occurs_at(x, p, j) {
                        assert(j >= a.len());
                        assert forall|m: int| 0 <= m < p.len() implies y[j - a.len() + m]
                            == #[trigger] p[m] by {
                            assert(x[j + m] == y[j - a.len() + m]);
                        }
                        assert(occurs_at(y, p, j - a.len()));
                    }
                }
            } else {
                lemma_replace_after_prefix(a, y, p, w);
                let m = choose|m: int| occurs_at(y, p, m);
                assert(occurs_at(x, p, m + a.len())) by {
                    assert forall|j: int| 0 <= j < p.len() implies x[m + a.len() + j]
                        == #[trigger] p[j] by {
                        assert(x[m + a.len() + j] == y[m + j]);
                    }
                }
            }
        }
    }
}

/// No character of `p` is `c`.
pub open spec fn foreign(c: char, p: Seq<char>) -> bool {
    forall|j: int| 0 <= j < p.len() ==> #[trigger] p[j] != c
}

/// A character that is neither a dollar sign nor a name character is foreign
/// to every name.
pub proof fn lemma_foreign(c: char, p: Seq<char>)
    requires
        is_name(p),
        c != '$',
        !name_char(c),
    ensures
        foreign(c, p),
{
    assert forall|j: int| 0 <= j < p.len() implies #[trigger] p[j] != c by {
        if j > 0 {
            assert(name_char(p[j]));
        }
    }
}

/// Two texts without `p`, with a character between them that `p` does not
/// hold, make a text without `p`.
pub proof fn lemma_absent_around(a: Seq<char>, c: char, b: Seq<char>, p: Seq<char>)
    requires
        p.len() > 0,
        !contains(a, p),
        !contains(b, p),
        foreign(c, p),
    ensures
        !contains(a + seq![c] + b, p),
{
    let s = a + seq![c] + b;
    if contains(s, p) {
        let i = choose|i: int| occurs_at(s, p, i);
        if i + p.len() <= a.len() {
            assert forall|j: int| 0 <= j < p.len() implies a[i + j] == #[trigger] p[j] by {
                assert(s[i + j] == a[i + j]);
            }
            assert(occurs_at(a, p, i));
        } else if i > a.len() {
            let m = i - a.len() - 1;
            assert forall|j: int| 0 <= j < p.len() implies b[m + j] == #[trigger] p[j] by {
                assert(s[i + j] == b[m + j]);
            }
            assert(occurs_at(b, p, m));
        } else {
            let j = a.len() - i;
            assert(s[i + j] == c);
            assert(p[j] == c);
        }
    }
}

/// Texts without `p`, joined by a character that `p` does not hold, make a
/// text without `p`.
pub proof fn lemma_joined_absent(parts: Seq<Seq<char>>, c: char, p: Seq<char>)
    requires
        p.len() > 0,
        foreign(c, p),
        forall|i: int| 0 <= i < parts.len() ==> !contains(#[trigger] parts[i], p),
    ensures
        !contains(joined(parts, seq![c]), p),
    decreases parts.len(),
{
    if parts.len() == 0 {
        assert forall|i: int| !occurs_at(Seq::<char>::empty(), p, i) by {}
    } else if parts.len() > 1 {
        let front = parts.drop_last();
        assert forall|i: int| 0 <= i < front.len() implies !contains(#[trigger] front[i], p) by {
            assert(front[i] == parts[i]);
        }
        lemma_joined_absent(front, c, p);
        lemma_absent_around(joined(front, seq![c]), c, parts.last(), p);
    }
}

/// A text without `p`, followed by a text that is clear of `p` and starts
/// with a character foreign to the tail of `p`, holds no `p`.
pub proof fn lemma_absent_then_clear(f: Seq<char>, x: Seq<char>, p: Seq<char>)
    requires
        p.len() > 0,
        !contains(f, p),
        clear_of(x, p),
        x.len() > 0,
        tail_foreign(x[0], p),
    ensures
        !contains(f + x, p),
{
    if contains(f + x, p) {
        let i = choose|i: int| occurs_at(f + x, p, i);
        lemma_no_start_in_guarded(f, x, p, i);
        let m = i - f.len();
        assert(begins_at(x, p, m)) by {
            assert forall|j: int| 0 <= j < p.len() && m + j < x.len() implies x[m + j]
                == #[trigger] p[j] by {
                assert((f + x)[i + j] == x[m + j]);
            }
        }
    }
}

/// The text `=$<k>` is clear of every name.
pub proof fn lemma_binding_clear(k: nat, p: Seq<char>)
    requires
        is_name(p),
    ensures
        clear_of(seq!['=', '$'] + digits(k), p),
        clear_of(seq!['$'] + digits(k), p),
{
    lemma_digits_are_digits(k);
    let d = digits(k);
    let x = seq!['=', '$'] + d;
    assert forall|i: int| 0 <= i < x.len() implies !#[trigger] begins_at(x, p, i) by {
        if i == 1 {
            assert(x[i + 1] == d[0]);
            assert(name_char(p[1]));
        } else {
            if i >= 2 {
                assert(x[i] == d[i - 2]);
            }
            assert(x[i + 0] != p[0]);
        }
    }
    let y = seq!['$'] + d;
    assert forall|i: int| 0 <= i < y.len() implies !#[trigger] begins_at(y, p, i) by {
        if i == 0 {
            assert(y[i + 1] == d[0]);
            assert(name_char(p[1]));
        } else {
            assert(y[i] == d[i - 1]);
            assert(y[i + 0] != p[0]);
        }
    }
}

/// Five pieces laid end to end.
pub proof fn lemma_flat_5(a: Seq<char>, b: Seq<char>, c: Seq<char>, d: Seq<char>, e: Seq<char>)
    ensures
        flat(seq![a, b, c, d, e]) == a + b + c + d + e,
{
    let s = seq![a, b, c, d, e];
    lemma_flat_skip(s, 0);
    lemma_flat_skip(s, 1);
    lemma_flat_skip(s, 2);
    lemma_flat_skip(s, 3);
    lemma_flat_skip(s, 4);
    assert(s.skip(0) =~= s);
    assert(flat(s.skip(5)) =~= Seq::<char>::empty());
    assert(flat(s) =~= a + b + c + d + e);
}

/// Seven pieces laid end to end.
pub proof fn lemma_flat_7(
    a: Seq<char>,
    b: Seq<char>,
    c: Seq<char>,
    d: Seq<char>,
    e: Seq<char>,
    f: Seq<char>,
    g: Seq<char>,
)
    ensures
        flat(seq![a, b, c, d, e, f, g]) == a + b + c + d + e + f + g,
{
    let s = seq![a, b, c, d, e, f, g];
    lemma_flat_skip(s, 0);
    lemma_flat_skip(s, 1);
    lemma_flat_skip(s, 2);
    lemma_flat_skip(s, 3);
    lemma_flat_skip(s, 4);
    lemma_flat_skip(s, 5);
    lemma_flat_skip(s, 6);
    assert(s.skip(0) =~= s);
    assert(flat(s.skip(7)) =~= Seq::<char>::empty());
    assert(flat(s) =~= a + b + c + d + e + f + g);
}

/// The first `n` pieces laid end to end, gathered from the left.
pub open spec fn left_sum(s: Seq<Seq<char>>, n: int) -> Seq<char>
    decreases n,
{
    if n <= 1 {
        s[0]
    } else {
        left_sum(s, n - 1) + s[n - 1]
    }
}

/// The flattened pieces are the first `n` of them followed by the rest.
pub proof fn lemma_flat_left(s: Seq<Seq<char>>, n: int)
    requires
        1 <= n <= s.len(),
    ensures
        flat(s) == left_sum(s, n) + flat(s.skip(n)),
    decreases n,
{
    if n == 1 {
        lemma_flat_skip(s, 0);
        assert(s.skip(0) =~= s);
    } else {
        lemma_flat_left(s, n - 1);
        lemma_flat_skip(s, n - 1);
        assert(left_sum(s, n - 1) + (s[n - 1] + flat(s.skip(n))) =~= left_sum(s, n) + flat(
            s.skip(n),
        ));
    }
}

/// Seventeen pieces laid end to end.
pub proof fn lemma_flat_17(s: Seq<Seq<char>>)
    requires
        s.len() == 17,
    ensures
        flat(s) == s[0] + s[1] + s[2] + s[3] + s[4] + s[5] + s[6] + s[7] + s[8] + s[9] + s[10]
            + s[11] + s[12] + s[13] + s[14] + s[15] + s[16],
{
    lemma_flat_left(s, 17);
    assert(flat(s.skip(17)) =~= Seq::<char>::empty());
    assert(left_sum(s, 17) + Seq::<char>::empty() =~= left_sum(s, 17));
    reveal_with_fuel(left_sum, 18);
}

/// Every dollar sign of `a` is followed by a character that is neither a
/// lower-case letter nor an underscore: `a` may hold positional placeholders
/// such as `$1`, but nothing that could be a named one.
pub open spec fn bound_dollars(a: Seq<char>) -> bool {
    forall|i: int|
        0 <= i < a.len() && #[trigger] a[i] == '$' ==> i + 1 < a.len() && !name_char(a[i + 1])
}

/// Text without a dollar sign has all its dollar signs bound.
pub proof fn lemma_plain_bound(a: Seq<char>)
    requires
        no_dollar(a),
    ensures
        bound_dollars(a),
{
}

/// Text whose dollar signs are bound holds no name.
pub proof fn lemma_bound_absent(a: Seq<char>, p: Seq<char>)
    requires
        bound_dollars(a),
        is_name(p),
    ensures
        clear_of(a, p),
        !contains(a, p),
{
    assert forall|i: int| 0 <= i < a.len() implies !#[trigger] begins_at(a, p, i) by {
        if a[i] == '$' {
            assert(name_char(p[1]));
            assert(a[i + 1] != p[1]);
        } else {
            assert(a[i + 0] != p[0]);
        }
    }
    lemma_clear_absent(a, p);
}

/// An occurrence of `p` in `a + y` begins in `a` and ends in `y`.
pub open spec fn straddles(a: Seq<char>, y: Seq<char>, p: Seq<char>, i: int) -> bool {
    occurs_at(a + y, p, i) && i < a.len() < i + p.len()
}

/// Replacement goes piece by piece where no occurrence lies across the
/// boundary of the pieces.
pub proof fn lemma_replace_concat(a: Seq<char>, y: Seq<char>, p: Seq<char>, w: Seq<char>)
    requires
        p.len() > 0,
        forall|i: int| !straddles(a, y, p, i),
    ensures
        replace_all(a + y, p, w) == replace_all(a, p, w) + replace_all(y, p, w),
    decreases a.len(),
{
    let s = a + y;
    if a.len() == 0 {
        assert(s =~= y);
        assert(replace_all(a, p, w) + replace_all(y, p, w) =~= replace_all(y, p, w));
    } else if occurs_at(s, p, 0) {
        assert(!straddles(a, y, p, 0));
        assert(occurs_at(a, p, 0)) by {
            assert forall|j: int| 0 <= j < p.len() implies a[0 + j] == #[trigger] p[j] by {
                assert(s[0 + j] == a[j]);
            }
        }
        let n = p.len() as int;
        let rest = a.skip(n);
        assert(s.skip(n) =~= rest + y);
        assert forall|i: int| !straddles(rest, y, p, i) by {
            if straddles(rest, y, p, i) {
                assert forall|j: int| 0 <= j < p.len() implies s[i + n + j] == #[trigger] p[j] by {
                    assert((rest + y)[i + j] == s[i + n + j]);
                }
                assert(straddles(a, y, p, i + n));
            }
        }
        lemma_replace_concat(rest, y, p, w);
        assert(w + (replace_all(rest, p, w) + replace_all(y, p, w)) =~= (w + replace_all(
            rest,
            p,
            w,
        )) + replace_all(y, p, w));
    } else {
        assert(!occurs_at(a, p, 0)) by {
            if occurs_at(a, p, 0) {
                assert forall|j: int| 0 <= j < p.len() implies s[0 + j] == #[trigger] p[j] by {
                    assert(s[0 + j] == a[0 + j]);
                }
            }
        }
        let rest = a.skip(1);
        assert(s.skip(1) =~= rest + y);
        assert forall|i: int| !straddles(rest, y, p, i) by {
            if straddles(rest, y, p, i) {
                assert forall|j: int| 0 <= j < p.len() implies s[i + 1 + j] == #[trigger] p[j] by {
                    assert((rest + y)[i + j] == s[i + 1 + j]);
                }
                assert(straddles(a, y, p, i + 1));
            }
        }
        lemma_replace_concat(rest, y, p, w);
        assert(seq![s[0]] + (replace_all(rest, p, w) + replace_all(y, p, w)) =~= (seq![a[0]]
            + replace_all(rest, p, w)) + replace_all(y, p, w));
    }
}

/// Replacing one name keeps every occurrence of another: a text that holds
/// the name `q` still holds it after every `p` in it was replaced, if
/// nothing like `p` begins in `q`.
pub proof fn lemma_replace_keeps(s: Seq<char>, q: Seq<char>, p: Seq<char>, w: Seq<char>)
    requires
        is_name(p),
        is_name(q),
        clear_of(q, p),
        contains(s, q),
    ensures
        contains(replace_all(s, p, w), q),
{
    let i = choose|i: int| occurs_at(s, q, i);
    let a = s.take(i);
    let b = s.skip(i + q.len());
    let y = q + b;
    assert(s =~= a + y) by {
        assert forall|j: int| 0 <= j < q.len() implies s[i + j] == #[trigger] q[j] by {}
    }
    lemma_name_distinct_head(p);
    assert forall|k: int| !straddles(a, y, p, k) by {
        if straddles(a, y, p, k) {
            let j = a.len() - k;
            assert((a + y)[k + j] == q[0]);
            assert(p[j] == q[0]);
        }
    }
    lemma_replace_concat(a, y, p, w);
    assert forall|k: int| 0 <= k < q.len() implies !occurs_at(q + b, p, k) by {
        if occurs_at(q + b, p, k) {
            lemma_no_start_in_clear(q, b, p, k);
        }
    }
    lemma_replace_after_prefix(q, b, p, w);
    let front = replace_all(a, p, w);
    let out = replace_all(s, p, w);
    assert(out == front + (q + replace_all(b, p, w)));
    assert(occurs_at(out, q, front.len() as int)) by {
        assert forall|j: int| 0 <= j < q.len() implies out[front.len() + j] == #[trigger] q[j] by {}
    }
}

/// The flattened pieces hold each of their pieces.
pub proof fn lemma_flat_holds(segs: Seq<Seq<char>>, k: int)
    requires
        0 <= k < segs.len(),
    ensures
        contains(flat(segs), segs[k]),
    decreases k,
{
    lemma_flat_skip(segs, 0);
    assert(segs.skip(0) =~= segs);
    let rest = segs.skip(1);
    if k == 0 {
        assert(occurs_at(flat(segs), segs[0], 0)) by {
            assert forall|j: int| 0 <= j < segs[0].len() implies flat(segs)[0 + j]
                == #[trigger] segs[0][j] by {}
        }
    } else {
        lemma_flat_holds(rest, k - 1);
        assert(rest[k - 1] == segs[k]);
        let i = choose|i: int| occurs_at(flat(rest), segs[k], i);
        let n = segs[0].len() as int;
        assert(occurs_at(flat(segs), segs[k], i + n)) by {
            assert forall|j: int| 0 <= j < segs[k].len() implies flat(segs)[i + n + j]
                == #[trigger] segs[k][j] by {
                assert(flat(segs)[i + n + j] == flat(rest)[i + j]);
            }
        }
    }
}

/// `p` occurs in `s` exactly once.
pub open spec fn once(s: Seq<char>, p: Seq<char>) -> bool {
    exists|i: int| occurs_at(s, p, i) && forall|j: int| occurs_at(s, p, j) ==> j == i
}

/// The pieces from piece `from` up to, but without, piece `to`, laid end to
/// end.
pub open spec fn span(segs: Seq<Seq<char>>, from: int, to: int) -> Seq<char> {
    flat(segs.subrange(from, to))
}

/// Among pieces that are inert for the placeholder that is piece `k`, the
/// placeholder occurs in the flattened pieces at the place of piece `k` and
/// nowhere else.
pub proof fn lemma_hole_once(segs: Seq<Seq<char>>, k: int)
    requires
        0 <= k < segs.len(),
        distinct_head(segs[k]),
        forall|i: int| 0 <= i < segs.len() && i != k ==> #[trigger] inert(segs, i, segs[k]),
    ensures
        forall|j: int| occurs_at(flat(segs), segs[k], j) <==> j == span(segs, 0, k).len(),
        once(flat(segs), segs[k]),
{
    lemma_occurrences_from(segs, k, 0);
    assert(segs.skip(0) =~= segs);
    lemma_flat_holds_at(segs, k);
    let at = span(segs, 0, k).len() as int;
    assert(occurs_at(flat(segs), segs[k], at));
}

/// Piece `k` occurs in the flattened pieces behind the pieces before it.
pub proof fn lemma_flat_holds_at(segs: Seq<Seq<char>>, k: int)
    requires
        0 <= k < segs.len(),
    ensures
        occurs_at(flat(segs), segs[k], span(segs, 0, k).len() as int),
    decreases k,
{
    lemma_flat_skip(segs, 0);
    assert(segs.skip(0) =~= segs);
    let rest = segs.skip(1);
    if k == 0 {
        assert(segs.subrange(0, 0) =~= Seq::<Seq<char>>::empty());
        assert(span(segs, 0, 0).len() == 0);
        assert forall|j: int| 0 <= j < segs[0].len() implies flat(segs)[0 + j]
            == #[trigger] segs[0][j] by {}
    } else {
        lemma_flat_holds_at(rest, k - 1);
        assert(rest[k - 1] == segs[k]);
        let n = segs[0].len() as int;
        let i = span(rest, 0, k - 1).len() as int;
        lemma_flat_skip(segs.subrange(0, k), 0);
        assert(segs.subrange(0, k).skip(0) =~= segs.subrange(0, k));
        assert(segs.subrange(0, k).skip(1) =~= rest.subrange(0, k - 1));
        assert(span(segs, 0, k).len() == n + i);
        assert forall|j: int| 0 <= j < segs[k].len() implies flat(segs)[i + n + j]
            == #[trigger] segs[k][j] by {
            assert(flat(segs)[i + n + j] == flat(rest)[i + j]);
        }
    }
}

/// The law of [`lemma_hole_once`] for the pieces from piece `i` on.
proof fn lemma_occurrences_from(segs: Seq<Seq<char>>, k: int, i: int)
    requires
        0 <= k < segs.len(),
        0 <= i <= segs.len(),
        distinct_head(segs[k]),
        forall|i: int| 0 <= i < segs.len() && i != k ==> #[trigger] inert(segs, i, segs[k]),
    ensures
        forall|j: int|
            occurs_at(flat(segs.skip(i)), segs[k], j) ==> i <= k && j == span(segs, i, k).len(),
    decreases segs.len() - i,
{
    let p = segs[k];
    if i == segs.len() {
        assert(flat(segs.skip(i)).len() == 0);
    } else {
        lemma_occurrences_from(segs, k, i + 1);
        lemma_flat_skip(segs, i);
        let a = segs[i];
        let y = flat(segs.skip(i + 1));
        let x = a + y;
        assert forall|j: int| occurs_at(x, p, j) implies i <= k && j == span(segs, i, k).len() by {
            if i != k {
                assert(inert(segs, i, p));
                if clear_of(a, p) {
                    lemma_no_start_in_clear(a, y, p, j);
                } else {
                    lemma_flat_skip(segs, i + 1);
                    lemma_no_start_in_guarded(a, y, p, j);
                }
            }
            if j >= a.len() {
                assert forall|m: int| 0 <= m < p.len() implies y[j - a.len() + m]
                    == #[trigger] p[m] by {
                    assert(x[j + m] == y[j - a.len() + m]);
                }
                assert(occurs_at(y, p, j - a.len()));
                assert(i + 1 <= k);
                lemma_flat_skip(segs.subrange(i, k), 0);
                assert(segs.subrange(i, k).skip(0) =~= segs.subrange(i, k));
                assert(segs.subrange(i, k).skip(1) =~= segs.subrange(i + 1, k));
            } else {
                assert(i == k);
                assert(segs.subrange(k, k) =~= Seq::<Seq<char>>::empty());
                if j > 0 {
                    assert(x[j + 0] == p[j]);
                    assert(p[j] == p[0]);
                }
            }
        }
    }
}

} // verus!
