//! The order of texts: lexicographic by character, each character folded.
use vstd::prelude::*;
use vstd::std_specs::iter::IteratorSpec;
use core::cmp::Ordering;
use crate::fold::{fold_char, fold_chars, to_lower_char};

verus! {

/// How `a` stands to `b` in the lexicographic order of their folded
/// characters: the first position at which the folded characters differ
/// decides, and where there is none the shorter text comes first.
pub open spec fn compare_folded(a: Seq<char>, b: Seq<char>) -> Ordering
    decreases a.len(),
{
    if a.len() == 0 {
        if b.len() == 0 {
            Ordering::Equal
        } else {
            Ordering::Less
        }
    } else if b.len() == 0 {
        Ordering::Greater
    } else if fold_char(a[0]) < fold_char(b[0]) {
        Ordering::Less
    } else if fold_char(a[0]) > fold_char(b[0]) {
        Ordering::Greater
    } else {
        compare_folded(a.drop_first(), b.drop_first())
    }
}

/// `a` and `b` agree, folded, on their first `k` characters, and there `a`
/// either ends while `b` goes on or has the smaller folded character.
pub open spec fn less_at(a: Seq<char>, b: Seq<char>, k: int) -> bool {
    &&& 0 <= k <= a.len()
    &&& k < b.len()
    &&& forall|i: int| 0 <= i < k ==> fold_char(a[i]) == fold_char(b[i])
    &&& k < a.len() ==> fold_char(a[k]) < fold_char(b[k])
}

/// The same relation seen from the other side.
pub open spec fn reversed(o: Ordering) -> Ordering {
    match o {
        Ordering::Less => Ordering::Greater,
        Ordering::Equal => Ordering::Equal,
        Ordering::Greater => Ordering::Less,
    }
}

/// Compares two texts character by character, each character folded.
pub fn compare_ignore_ascii_case(a: &str, b: &str) -> (r: Ordering)
    ensures
        r == compare_folded(a@, b@),
{
    let mut xs = a.chars();
    let mut ys = b.chars();
    let ghost mut k: int = 0;
    assert(a@.skip(0) =~= a@);
    assert(b@.skip(0) =~= b@);
    loop
        invariant
            0 <= k <= a@.len(),
            k <= b@.len(),
            xs.obeys_prophetic_iter_laws(),
            ys.obeys_prophetic_iter_laws(),
            xs.remaining() == a@.skip(k),
            ys.remaining() == b@.skip(k),
            compare_folded(a@, b@) == compare_folded(a@.skip(k), b@.skip(k)),
        decreases a@.len() - k,
    {
        let x = xs.next();
        let y = ys.next();
        match (x, y) {
            (None, None) => {
                return Ordering::Equal;
            },
            (None, Some(_)) => {
                return Ordering::Less;
            },
            (Some(_), None) => {
                return Ordering::Greater;
            },
            (Some(c), Some(d)) => {
                let c = to_lower_char(c);
                let d = to_lower_char(d);
                if c < d {
                    return Ordering::Less;
                }
                if c > d {
                    return Ordering::Greater;
                }
                proof {
                    assert(a@.skip(k).drop_first() == a@.skip(k + 1));
                    assert(b@.skip(k).drop_first() == b@.skip(k + 1));
                    k = k + 1;
                }
            },
        }
    }
}

/// Where `a` comes before `b` there is a position that decides it.
proof fn lemma_less_gives_position(a: Seq<char>, b: Seq<char>) -> (k: int)
    requires
        compare_folded(a, b) == Ordering::Less,
    ensures
        less_at(a, b, k),
    decreases a.len(),
{
    if a.len() == 0 || fold_char(a[0]) < fold_char(b[0]) {
        0
    } else {
        let k = lemma_less_gives_position(a.drop_first(), b.drop_first());
        assert forall|i: int| 0 <= i < k + 1 implies fold_char(a[i]) == fold_char(b[i]) by {
            if i > 0 {
                assert(a[i] == a.drop_first()[i - 1]);
                assert(b[i] == b.drop_first()[i - 1]);
            }
        }
        assert(b[k + 1] == b.drop_first()[k]);
        if k + 1 < a.len() {
            assert(a[k + 1] == a.drop_first()[k]);
        }
        k + 1
    }
}

/// A position that decides for `a` puts `a` before `b`.
proof fn lemma_position_gives_less(a: Seq<char>, b: Seq<char>, k: int)
    requires
        less_at(a, b, k),
    ensures
        compare_folded(a, b) == Ordering::Less,
    decreases a.len(),
{
    if k > 0 {
        let x = a.drop_first();
        let y = b.drop_first();
        assert forall|i: int| 0 <= i < k - 1 implies fold_char(x[i]) == fold_char(y[i]) by {
            assert(x[i] == a[i + 1]);
            assert(y[i] == b[i + 1]);
        }
        assert(y[k - 1] == b[k]);
        if k - 1 < x.len() {
            assert(x[k - 1] == a[k]);
        }
        lemma_position_gives_less(x, y, k - 1);
    }
}

/// `a` comes before `b` exactly when the first position at which their
/// folded characters differ holds the smaller one in `a`, or there is no
/// such position and `a` is the shorter.
pub proof fn lemma_less_iff_first_difference(a: Seq<char>, b: Seq<char>)
    ensures
        compare_folded(a, b) == Ordering::Less <==> exists|k: int| less_at(a, b, k),
{
    if compare_folded(a, b) == Ordering::Less {
        let k = lemma_less_gives_position(a, b);
        assert(less_at(a, b, k));
    }
    if exists|k: int| less_at(a, b, k) {
        let k = choose|k: int| less_at(a, b, k);
        lemma_position_gives_less(a, b, k);
    }
}

/// Two texts compare as equal exactly when their folded characters are the
/// same.
pub proof fn lemma_compare_equal_iff(a: Seq<char>, b: Seq<char>)
    ensures
        compare_folded(a, b) == Ordering::Equal <==> fold_chars(a) == fold_chars(b),
    decreases a.len(),
{
    if a.len() == 0 || b.len() == 0 {
        assert(fold_chars(a).len() == a.len());
        assert(fold_chars(b).len() == b.len());
        if a.len() == 0 && b.len() == 0 {
            assert(fold_chars(a) =~= fold_chars(b));
        }
    } else {
        lemma_compare_equal_iff(a.drop_first(), b.drop_first());
        assert(fold_chars(a)[0] == fold_char(a[0]));
        assert(fold_chars(b)[0] == fold_char(b[0]));
        assert(fold_chars(a).drop_first() =~= fold_chars(a.drop_first()));
        assert(fold_chars(b).drop_first() =~= fold_chars(b.drop_first()));
        if fold_chars(a.drop_first()) == fold_chars(b.drop_first()) && fold_char(a[0])
            == fold_char(b[0]) {
            assert forall|i: int| 0 <= i < a.len() implies fold_chars(a)[i] == fold_chars(b)[i] by {
                if i > 0 {
                    assert(fold_chars(a)[i] == fold_chars(a.drop_first())[i - 1]);
                    assert(fold_chars(b)[i] == fold_chars(b.drop_first())[i - 1]);
                }
            }
            assert(fold_chars(a) =~= fold_chars(b));
        }
    }
}

/// Swapping the two sides reverses the outcome.
pub proof fn lemma_compare_antisymmetric(a: Seq<char>, b: Seq<char>)
    ensures
        compare_folded(b, a) == reversed(compare_folded(a, b)),
    decreases a.len(),
{
    if a.len() > 0 && b.len() > 0 {
        lemma_compare_antisymmetric(a.drop_first(), b.drop_first());
    }
}

/// The order is transitive: what is not above `b`, which is not above `c`,
/// is not above `c`, and it is strictly below `c` as soon as one of the two
/// steps is strict.
pub proof fn lemma_compare_transitive(a: Seq<char>, b: Seq<char>, c: Seq<char>)
    requires
        compare_folded(a, b) != Ordering::Greater,
        compare_folded(b, c) != Ordering::Greater,
    ensures
        compare_folded(a, c) != Ordering::Greater,
        compare_folded(a, b) == Ordering::Less || compare_folded(b, c) == Ordering::Less
            ==> compare_folded(a, c) == Ordering::Less,
    decreases a.len(),
{
    if a.len() > 0 && b.len() > 0 && c.len() > 0 {
        if fold_char(a[0]) == fold_char(b[0]) && fold_char(b[0]) == fold_char(c[0]) {
            lemma_compare_transitive(a.drop_first(), b.drop_first(), c.drop_first());
        }
    }
}

/// The outcome depends on the folded characters alone.
pub proof fn lemma_compare_reads_folded(a: Seq<char>, b: Seq<char>, c: Seq<char>, d: Seq<char>)
    requires
        fold_chars(a) == fold_chars(c),
        fold_chars(b) == fold_chars(d),
    ensures
        compare_folded(a, b) == compare_folded(c, d),
    decreases a.len(),
{
    assert(fold_chars(a).len() == a.len());
    assert(fold_chars(b).len() == b.len());
    assert(fold_chars(c).len() == c.len());
    assert(fold_chars(d).len() == d.len());
    if a.len() > 0 && b.len() > 0 {
        assert(fold_chars(a)[0] == fold_char(a[0]));
        assert(fold_chars(b)[0] == fold_char(b[0]));
        assert(fold_chars(c)[0] == fold_char(c[0]));
        assert(fold_chars(d)[0] == fold_char(d[0]));
        assert(fold_chars(a).drop_first() =~= fold_chars(a.drop_first()));
        assert(fold_chars(b).drop_first() =~= fold_chars(b.drop_first()));
        assert(fold_chars(c).drop_first() =~= fold_chars(c.drop_first()));
        assert(fold_chars(d).drop_first() =~= fold_chars(d.drop_first()));
        lemma_compare_reads_folded(
            a.drop_first(),
            b.drop_first(),
            c.drop_first(),
            d.drop_first(),
        );
    }
}

} // verus!
