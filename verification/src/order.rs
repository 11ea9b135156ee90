//! Lexicographic order on token identifiers and account names.
//!
//! Token enumeration is lexicographic by token identifier, so the stores keep
//! their entries sorted by this order; the comparator here is what they sort by.

use vstd::prelude::*;
use vstd::string::StrSliceExecFns;

verus! {

/// Strict lexicographic order on character sequences, by Unicode scalar value.
/// A proper prefix precedes every extension of it.
pub open spec fn str_lt(a: Seq<char>, b: Seq<char>) -> bool
    decreases a.len() + b.len(),
{
    if b.len() == 0 {
        false
    } else if a.len() == 0 {
        true
    } else if a[0] == b[0] {
        str_lt(a.drop_first(), b.drop_first())
    } else {
        a[0] < b[0]
    }
}

/// Three-way outcome of comparing two keys.
#[derive(Debug, Clone, Copy, PartialEq, Eq, Structural)]
pub enum KeyOrder {
    Lt,
    Eq,
    Gt,
}

/// Compares two strings in the order of `str_lt`.
pub fn str_cmp(a: &str, b: &str) -> (o: KeyOrder)
    ensures
        o is Lt <==> str_lt(a@, b@),
        o is Eq <==> a@ == b@,
        o is Gt <==> str_lt(b@, a@),
    decreases a@.len(),
{
    let la = a.unicode_len();
    let lb = b.unicode_len();
    if lb == 0 {
        if la == 0 {
            proof {
                assert(a@ =~= b@);
            }
            KeyOrder::Eq
        } else {
            KeyOrder::Gt
        }
    } else if la == 0 {
        KeyOrder::Lt
    } else {
        let ca = a.get_char(0);
        let cb = b.get_char(0);
        if ca == cb {
            let o = str_cmp(a.substring_char(1, la), b.substring_char(1, lb));
            proof {
                assert(a@.subrange(1, a@.len() as int) =~= a@.drop_first());
                assert(b@.subrange(1, b@.len() as int) =~= b@.drop_first());
                if o is Eq {
                    lemma_eq_head_tail(a@, b@);
                }
                if a@ == b@ {
                    assert(a@.drop_first() =~= b@.drop_first());
                }
            }
            o
        } else if ca < cb {
            KeyOrder::Lt
        } else {
            KeyOrder::Gt
        }
    }
}

/// Two sequences with the same head and the same tail are equal.
pub proof fn lemma_eq_head_tail(a: Seq<char>, b: Seq<char>)
    requires
        a.len() > 0,
        b.len() > 0,
        a[0] == b[0],
        a.drop_first() == b.drop_first(),
    ensures
        a == b,
{
    assert(a.drop_first().len() == a.len() - 1);
    assert(b.drop_first().len() == b.len() - 1);
    assert(a.len() == b.len());
    assert forall|i: int| 0 <= i < a.len() implies a[i] == b[i] by {
        if i > 0 {
            assert(a.drop_first()[i - 1] == b.drop_first()[i - 1]);
            assert(a.drop_first()[i - 1] == a[i]);
            assert(b.drop_first()[i - 1] == b[i]);
        }
    }
    assert(a =~= b);
}

/// Whether two strings are equal.
pub fn str_eq(a: &str, b: &str) -> (r: bool)
    ensures
        r == (a@ == b@),
{
    matches!(str_cmp(a, b), KeyOrder::Eq)
}

/// `str_lt` is asymmetric, so related sequences are distinct.
pub proof fn lemma_str_lt_asym(a: Seq<char>, b: Seq<char>)
    requires
        str_lt(a, b),
    ensures
        !str_lt(b, a),
        a != b,
    decreases a.len() + b.len(),
{
    if a.len() > 0 && b.len() > 0 && a[0] == b[0] {
        lemma_str_lt_asym(a.drop_first(), b.drop_first());
        if a == b {
            assert(a.drop_first() =~= b.drop_first());
        }
    }
}

/// `str_lt` is transitive.
pub proof fn lemma_str_lt_trans(a: Seq<char>, b: Seq<char>, c: Seq<char>)
    requires
        str_lt(a, b),
        str_lt(b, c),
    ensures
        str_lt(a, c),
    decreases a.len() + b.len() + c.len(),
{
    if a.len() > 0 && b.len() > 0 && c.len() > 0 && a[0] == b[0] && b[0] == c[0] {
        lemma_str_lt_trans(a.drop_first(), b.drop_first(), c.drop_first());
    }
}

/// Any two distinct sequences are related one way or the other.
pub proof fn lemma_str_lt_connected(a: Seq<char>, b: Seq<char>)
    requires
        a != b,
    ensures
        str_lt(a, b) || str_lt(b, a),
    decreases a.len() + b.len(),
{
    if a.len() == 0 && b.len() == 0 {
        assert(a =~= b);
    } else if a.len() > 0 && b.len() > 0 && a[0] == b[0] {
        if a.drop_first() == b.drop_first() {
            lemma_eq_head_tail(a, b);
        } else {
            lemma_str_lt_connected(a.drop_first(), b.drop_first());
        }
    } else if a.len() > 0 && b.len() > 0 {
        assert(a[0] < b[0] || b[0] < a[0]);
    }
}

} // verus!
