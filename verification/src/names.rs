//! The order in which interface names are listed: that of their UTF-8
//! bytes, as strings compare.

use vstd::prelude::*;
use vstd::string::*;
use vstd::utf8::{decode_utf8, encode_utf8};

verus! {

/// Whether `a` comes before `b`, byte by byte; a proper prefix comes first.
pub open spec fn bytes_precede(a: Seq<u8>, b: Seq<u8>) -> bool
    decreases a.len(),
{
    if b.len() == 0 {
        false
    } else if a.len() == 0 {
        true
    } else if a[0] != b[0] {
        a[0] < b[0]
    } else {
        bytes_precede(a.drop_first(), b.drop_first())
    }
}

/// Whether the name `a` is listed before the name `b`.
pub open spec fn name_precedes(a: Seq<char>, b: Seq<char>) -> bool {
    bytes_precede(encode_utf8(a), encode_utf8(b))
}

/// Whether each name is listed before all that follow it.
pub open spec fn strictly_ascending(names: Seq<Seq<char>>) -> bool {
    forall|i: int, j: int| 0 <= i < j < names.len() ==> name_precedes(names[i], names[j])
}

/// The texts of a list of strings.
pub open spec fn texts_of(list: Seq<String>) -> Seq<Seq<char>> {
    list.map_values(|s: String| s@)
}

/// How one name stands to another.
#[derive(Debug, Clone, Copy, PartialEq, Eq)]
pub enum Precedence {
    Before,
    Same,
    After,
}

/// No byte sequence comes before itself.
pub proof fn precedence_is_irreflexive(a: Seq<u8>)
    ensures
        !bytes_precede(a, a),
    decreases a.len(),
{
    if a.len() > 0 {
        precedence_is_irreflexive(a.drop_first());
    }
}

/// What comes before something that comes before a third comes before the
/// third.
pub proof fn precedence_is_transitive(a: Seq<u8>, b: Seq<u8>, c: Seq<u8>)
    requires
        bytes_precede(a, b),
        bytes_precede(b, c),
    ensures
        bytes_precede(a, c),
    decreases a.len(),
{
    if a.len() > 0 && a[0] == b[0] && b[0] == c[0] {
        precedence_is_transitive(a.drop_first(), b.drop_first(), c.drop_first());
    }
}

/// Of two different byte sequences one comes before the other.
pub proof fn precedence_is_total(a: Seq<u8>, b: Seq<u8>)
    requires
        a != b,
    ensures
        bytes_precede(a, b) || bytes_precede(b, a),
    decreases a.len(),
{
    if a.len() > 0 && b.len() > 0 && a[0] == b[0] {
        if a.drop_first() == b.drop_first() {
            assert(a =~= seq![a[0]] + a.drop_first());
            assert(b =~= seq![b[0]] + b.drop_first());
        }
        precedence_is_total(a.drop_first(), b.drop_first());
    } else if a.len() == 0 && b.len() == 0 {
        assert(a =~= b);
    }
}

/// Names are ordered strictly and totally: exactly one of "before", "same"
/// and "after" holds of any two.
pub proof fn names_are_totally_ordered(a: Seq<char>, b: Seq<char>)
    ensures
        a == b ==> !name_precedes(a, b) && !name_precedes(b, a),
        a != b ==> (name_precedes(a, b) <==> !name_precedes(b, a)),
{
    broadcast use vstd::utf8::encode_utf8_decode_utf8;

    let x = encode_utf8(a);
    let y = encode_utf8(b);
    precedence_is_irreflexive(x);
    if a != b {
        assert(decode_utf8(x) == a);
        assert(decode_utf8(y) == b);
        assert(x != y);
        precedence_is_total(x, y);
        if bytes_precede(x, y) && bytes_precede(y, x) {
            precedence_is_transitive(x, y, x);
        }
    }
}

/// Places `a` before, with or after `b`.
pub fn name_order(a: &str, b: &str) -> (r: Precedence)
    ensures
        r is Before <==> name_precedes(a@, b@),
        r is Same <==> a@ == b@,
        r is After <==> name_precedes(b@, a@),
{
    broadcast use vstd::utf8::encode_utf8_decode_utf8;

    let x = a.as_bytes();
    let y = b.as_bytes();
    let mut i: usize = 0;
    proof {
        assert(x@.skip(0) =~= x@);
        assert(y@.skip(0) =~= y@);
        assert(decode_utf8(x@) == a@);
        assert(decode_utf8(y@) == b@);
    }
    while i < x.len() && i < y.len()
        invariant
            i <= x.len(),
            i <= y.len(),
            x@ == encode_utf8(a@),
            y@ == encode_utf8(b@),
            forall|k: int| 0 <= k < i ==> x@[k] == y@[k],
            bytes_precede(x@, y@) == bytes_precede(x@.skip(i as int), y@.skip(i as int)),
            bytes_precede(y@, x@) == bytes_precede(y@.skip(i as int), x@.skip(i as int)),
        decreases x.len() - i,
    {
        if x[i] < y[i] {
            return Precedence::Before;
        }
        if x[i] > y[i] {
            return Precedence::After;
        }
        proof {
            assert(x@.skip(i as int).drop_first() =~= x@.skip(i + 1));
            assert(y@.skip(i as int).drop_first() =~= y@.skip(i + 1));
        }
        i += 1;
    }
    if x.len() == y.len() {
        proof {
            assert(x@ =~= y@);
        }
        Precedence::Same
    } else if x.len() < y.len() {
        Precedence::Before
    } else {
        Precedence::After
    }
}

} // verus!
