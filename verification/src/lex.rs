//! Lexicographic order on byte strings.
//!
//! The storage engine keeps the keys of a column family in this order, byte by
//! byte and unsigned, a proper prefix before its extensions. Range scans and
//! their upper bounds are stated over it.

use vstd::prelude::*;

verus! {

/// `a` comes strictly before `b` in lexicographic byte order.
pub open spec fn lex_lt(a: Seq<u8>, b: Seq<u8>) -> bool
    decreases a.len(),
{
    if b.len() == 0 {
        false
    } else if a.len() == 0 {
        true
    } else if a[0] != b[0] {
        a[0] < b[0]
    } else {
        lex_lt(a.drop_first(), b.drop_first())
    }
}

/// `a` comes before `b` or is `b`.
pub open spec fn lex_le(a: Seq<u8>, b: Seq<u8>) -> bool {
    a == b || lex_lt(a, b)
}

/// `key` begins with the bytes of `prefix`.
pub open spec fn has_prefix(key: Seq<u8>, prefix: Seq<u8>) -> bool {
    key.len() >= prefix.len() && key.take(prefix.len() as int) == prefix
}

/// No byte string comes before itself.
pub proof fn lemma_lex_irreflexive(a: Seq<u8>)
    ensures
        !lex_lt(a, a),
    decreases a.len(),
{
    if a.len() > 0 {
        lemma_lex_irreflexive(a.drop_first());
    }
}

/// The order is transitive.
pub proof fn lemma_lex_transitive(a: Seq<u8>, b: Seq<u8>, c: Seq<u8>)
    requires
        lex_lt(a, b),
        lex_lt(b, c),
    ensures
        lex_lt(a, c),
    decreases a.len(),
{
    if a.len() > 0 && a[0] == b[0] && b[0] == c[0] {
        lemma_lex_transitive(a.drop_first(), b.drop_first(), c.drop_first());
    }
}

/// The order is total: of two different byte strings exactly one comes first.
pub proof fn lemma_lex_total(a: Seq<u8>, b: Seq<u8>)
    ensures
        lex_lt(a, b) || a == b || lex_lt(b, a),
        !(lex_lt(a, b) && lex_lt(b, a)),
        !(lex_lt(a, b) && a == b),
    decreases a.len(),
{
    lemma_lex_irreflexive(a);
    if a.len() == 0 || b.len() == 0 {
        if a.len() == 0 && b.len() == 0 {
            assert(a =~= b);
        }
    } else if a[0] == b[0] {
        lemma_lex_total(a.drop_first(), b.drop_first());
        if a.drop_first() == b.drop_first() {
            assert forall|i: int| 0 <= i < a.len() implies a[i] == b[i] by {
                if i > 0 {
                    assert(a[i] == a.drop_first()[i - 1]);
                    assert(b[i] == b.drop_first()[i - 1]);
                }
            }
            assert(a.len() == a.drop_first().len() + 1);
            assert(b.len() == b.drop_first().len() + 1);
            assert(a =~= b);
        }
    }
}

/// Mixed transitivity: `a <= b < c` gives `a < c`, and `a < b <= c` too.
pub proof fn lemma_lex_le_lt(a: Seq<u8>, b: Seq<u8>, c: Seq<u8>)
    requires
        (lex_le(a, b) && lex_lt(b, c)) || (lex_lt(a, b) && lex_le(b, c)),
    ensures
        lex_lt(a, c),
{
    if a != b && b != c {
        lemma_lex_transitive(a, b, c);
    }
}

/// Two byte strings that start with equally long parts compare by those parts
/// first, and by what follows only where the parts are equal.
pub proof fn lemma_lex_concat(a1: Seq<u8>, a2: Seq<u8>, b1: Seq<u8>, b2: Seq<u8>)
    requires
        a1.len() == b1.len(),
    ensures
        lex_lt(a1 + a2, b1 + b2) <==> (lex_lt(a1, b1) || (a1 == b1 && lex_lt(a2, b2))),
    decreases a1.len(),
{
    if a1.len() == 0 {
        assert(a1 + a2 =~= a2);
        assert(b1 + b2 =~= b2);
        assert(a1 =~= b1);
    } else {
        let a = a1 + a2;
        let b = b1 + b2;
        assert(a[0] == a1[0] && b[0] == b1[0]);
        assert(a.drop_first() =~= a1.drop_first() + a2);
        assert(b.drop_first() =~= b1.drop_first() + b2);
        lemma_lex_concat(a1.drop_first(), a2, b1.drop_first(), b2);
        if a1[0] == b1[0] {
            if a1.drop_first() == b1.drop_first() {
                assert forall|i: int| 0 <= i < a1.len() implies a1[i] == b1[i] by {
                    if i > 0 {
                        assert(a1[i] == a1.drop_first()[i - 1]);
                        assert(b1[i] == b1.drop_first()[i - 1]);
                    }
                }
                assert(a1 =~= b1);
            }
        }
    }
}

/// A key at least as long as a bound compares to the bound by its first bytes:
/// it is below the bound exactly when its leading part is, and it is at or
/// above the bound exactly when its leading part is.
pub proof fn lemma_lex_leading(key: Seq<u8>, bound: Seq<u8>)
    requires
        key.len() >= bound.len(),
    ensures
        lex_lt(key, bound) <==> lex_lt(key.take(bound.len() as int), bound),
        lex_le(bound, key) <==> lex_le(bound, key.take(bound.len() as int)),
{
    let n = bound.len() as int;
    let head = key.take(n);
    let tail = key.skip(n);
    assert(key =~= head + tail);
    assert(bound =~= bound + Seq::<u8>::empty());
    lemma_lex_concat(head, tail, bound, Seq::<u8>::empty());
    lemma_lex_concat(bound, Seq::<u8>::empty(), head, tail);
    lemma_lex_total(bound, head);
    lemma_lex_total(bound, key);
    if tail.len() == 0 {
        assert(key =~= head);
    }
}

/// A byte string comes at or after each of its prefixes.
pub proof fn lemma_lex_prefix_le(key: Seq<u8>, prefix: Seq<u8>)
    requires
        has_prefix(key, prefix),
    ensures
        lex_le(prefix, key),
{
    lemma_lex_leading(key, prefix);
}

/// Stripping a common prefix keeps the order.
pub proof fn lemma_lex_strip(prefix: Seq<u8>, a: Seq<u8>, b: Seq<u8>)
    ensures
        lex_lt(prefix + a, prefix + b) <==> lex_lt(a, b),
{
    lemma_lex_concat(prefix, a, prefix, b);
    lemma_lex_irreflexive(prefix);
}

} // verus!
