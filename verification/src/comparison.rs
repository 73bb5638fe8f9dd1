//! Three-way comparison of byte strings and of names.
//!
//! Names are ordered as Rust orders `str`: lexicographically by the bytes of
//! their UTF-8 encoding.

use std::cmp::Ordering;
use vstd::prelude::*;
use vstd::utf8::{encode_utf8, encode_utf8_decode_utf8};

verus! {

/// Outcome of a three-way comparison.
#[derive(Clone, Copy, Debug, PartialEq, Eq, Structural)]
pub enum Comparison {
    Less,
    Equal,
    Greater,
}

impl Comparison {
    /// The outcome with the operands swapped.
    pub open spec fn reverse(self) -> Comparison {
        match self {
            Comparison::Less => Comparison::Greater,
            Comparison::Equal => Comparison::Equal,
            Comparison::Greater => Comparison::Less,
        }
    }

    /// The same outcome as an `Ordering`.
    pub open spec fn standard(self) -> Ordering {
        match self {
            Comparison::Less => Ordering::Less,
            Comparison::Equal => Ordering::Equal,
            Comparison::Greater => Ordering::Greater,
        }
    }

    /// The same outcome as an `Ordering`.
    pub fn into_standard(self) -> (o: Ordering)
        ensures
            o == self.standard(),
    {
        match self {
            Comparison::Less => Ordering::Less,
            Comparison::Equal => Ordering::Equal,
            Comparison::Greater => Ordering::Greater,
        }
    }

    /// Whether the outcome is `Equal`.
    pub fn is_equal(&self) -> (r: bool)
        ensures
            r == (*self is Equal),
    {
        match self {
            Comparison::Equal => true,
            _ => false,
        }
    }

    /// `self`, unless it is `Equal`: then `next` decides.
    pub open spec fn chain(self, next: Comparison) -> Comparison {
        if self is Equal {
            next
        } else {
            self
        }
    }
}

/// Comparison of two integers.
pub open spec fn compare_int(a: int, b: int) -> Comparison {
    if a < b {
        Comparison::Less
    } else if a == b {
        Comparison::Equal
    } else {
        Comparison::Greater
    }
}

/// Comparison of two flags: `false` comes first.
pub open spec fn compare_bool(a: bool, b: bool) -> Comparison {
    if a == b {
        Comparison::Equal
    } else if b {
        Comparison::Less
    } else {
        Comparison::Greater
    }
}

/// Whether `order` says `Equal` of two values exactly when they are the same.
pub open spec fn decides_equality<A>(order: spec_fn(A, A) -> Comparison) -> bool {
    forall|x: A, y: A| (#[trigger] order(x, y)) is Equal <==> x == y
}

/// Whether swapping the operands of `order` reverses the outcome.
pub open spec fn antisymmetric<A>(order: spec_fn(A, A) -> Comparison) -> bool {
    forall|x: A, y: A| order(y, x) == (#[trigger] order(x, y)).reverse()
}

/// Whether `order` is transitive, and strict as soon as one step is.
pub open spec fn transitive<A>(order: spec_fn(A, A) -> Comparison) -> bool {
    forall|x: A, y: A, z: A|
        !((#[trigger] order(x, y)) is Greater) && !((#[trigger] order(y, z)) is Greater) ==> !(order(x, z)
            is Greater) && (order(x, y) is Less || order(y, z) is Less ==> order(x, z) is Less)
}

/// Whether `order` is a total order: any two values are comparable, those
/// that compare `Equal` are the same, and the order is transitive.
pub open spec fn is_total_order<A>(order: spec_fn(A, A) -> Comparison) -> bool {
    decides_equality(order) && antisymmetric(order) && transitive(order)
}

/// Lexicographic comparison of two lists from position `i` on, item by
/// item with `order`; a proper prefix is smaller.
pub open spec fn compare_lists_from<A>(
    a: Seq<A>,
    b: Seq<A>,
    order: spec_fn(A, A) -> Comparison,
    i: int,
) -> Comparison
    decreases a.len() - i,
{
    if i < 0 || i >= a.len() {
        if i < 0 || i >= b.len() {
            Comparison::Equal
        } else {
            Comparison::Less
        }
    } else if i >= b.len() {
        Comparison::Greater
    } else {
        order(a[i], b[i]).chain(compare_lists_from(a, b, order, i + 1))
    }
}

/// Lexicographic comparison of two lists, item by item with `order`.
pub open spec fn compare_lists<A>(a: Seq<A>, b: Seq<A>, order: spec_fn(A, A) -> Comparison) -> Comparison {
    compare_lists_from(a, b, order, 0)
}

/// The comparison of names, as a value.
pub open spec fn name_order() -> spec_fn(Seq<char>, Seq<char>) -> Comparison {
    |a: Seq<char>, b: Seq<char>| compare_names(a, b)
}

/// Lexicographic comparison of `a` and `b` from position `i` on.
pub open spec fn compare_bytes_from(a: Seq<u8>, b: Seq<u8>, i: int) -> Comparison
    decreases a.len() - i,
{
    if i < 0 || i >= a.len() {
        if i < 0 || i >= b.len() {
            Comparison::Equal
        } else {
            Comparison::Less
        }
    } else if i >= b.len() {
        Comparison::Greater
    } else if a[i] < b[i] {
        Comparison::Less
    } else if a[i] > b[i] {
        Comparison::Greater
    } else {
        compare_bytes_from(a, b, i + 1)
    }
}

/// Lexicographic comparison of two byte strings; a proper prefix is smaller.
pub open spec fn compare_bytes(a: Seq<u8>, b: Seq<u8>) -> Comparison {
    compare_bytes_from(a, b, 0)
}

/// Comparison of two names by the bytes of their UTF-8 encoding.
pub open spec fn compare_names(a: Seq<char>, b: Seq<char>) -> Comparison {
    compare_bytes(encode_utf8(a), encode_utf8(b))
}

/// From position `i` on, two byte strings compare `Equal` exactly when they agree there.
pub proof fn lemma_compare_bytes_from_equal(a: Seq<u8>, b: Seq<u8>, i: int)
    requires
        0 <= i,
    ensures
        compare_bytes_from(a, b, i) is Equal <==> (a.len() <= i && b.len() <= i) || (a.len()
            == b.len() && forall|j: int| i <= j < a.len() ==> a[j] == b[j]),
    decreases a.len() - i,
{
    if i < a.len() && i < b.len() && a[i] == b[i] {
        lemma_compare_bytes_from_equal(a, b, i + 1);
    }
}

/// Swapping the operands reverses the outcome.
pub proof fn lemma_compare_bytes_from_reverse(a: Seq<u8>, b: Seq<u8>, i: int)
    requires
        0 <= i,
    ensures
        compare_bytes_from(b, a, i) == compare_bytes_from(a, b, i).reverse(),
    decreases a.len() - i,
{
    if i < a.len() && i < b.len() && a[i] == b[i] {
        lemma_compare_bytes_from_reverse(a, b, i + 1);
    }
}

/// The order is transitive, and strict as soon as one step is.
pub proof fn lemma_compare_bytes_from_transitive(a: Seq<u8>, b: Seq<u8>, c: Seq<u8>, i: int)
    requires
        0 <= i,
        !(compare_bytes_from(a, b, i) is Greater),
        !(compare_bytes_from(b, c, i) is Greater),
    ensures
        !(compare_bytes_from(a, c, i) is Greater),
        compare_bytes_from(a, b, i) is Less || compare_bytes_from(b, c, i) is Less
            ==> compare_bytes_from(a, c, i) is Less,
    decreases a.len() - i,
{
    if i < a.len() && i < b.len() && i < c.len() && a[i] == b[i] && b[i] == c[i] {
        lemma_compare_bytes_from_transitive(a, b, c, i + 1);
    }
}

/// Two byte strings compare `Equal` exactly when they are the same.
pub proof fn lemma_compare_bytes_equal(a: Seq<u8>, b: Seq<u8>)
    ensures
        compare_bytes(a, b) is Equal <==> a == b,
{
    lemma_compare_bytes_from_equal(a, b, 0);
    if compare_bytes(a, b) is Equal {
        assert(a =~= b);
    }
}

/// Two names compare `Equal` exactly when they are the same.
pub proof fn lemma_compare_names_equal(a: Seq<char>, b: Seq<char>)
    ensures
        compare_names(a, b) is Equal <==> a == b,
{
    lemma_compare_bytes_equal(encode_utf8(a), encode_utf8(b));
    encode_utf8_decode_utf8(a);
    encode_utf8_decode_utf8(b);
}

/// Swapping two names reverses the outcome.
pub proof fn lemma_compare_names_reverse(a: Seq<char>, b: Seq<char>)
    ensures
        compare_names(b, a) == compare_names(a, b).reverse(),
{
    lemma_compare_bytes_from_reverse(encode_utf8(a), encode_utf8(b), 0);
}

/// The order on names is transitive, and strict as soon as one step is.
pub proof fn lemma_compare_names_transitive(a: Seq<char>, b: Seq<char>, c: Seq<char>)
    requires
        !(compare_names(a, b) is Greater),
        !(compare_names(b, c) is Greater),
    ensures
        !(compare_names(a, c) is Greater),
        compare_names(a, b) is Less || compare_names(b, c) is Less ==> compare_names(a, c) is Less,
{
    lemma_compare_bytes_from_transitive(encode_utf8(a), encode_utf8(b), encode_utf8(c), 0);
}

/// From position `i` on, two lists compare `Equal` exactly when they agree there.
pub proof fn lemma_compare_lists_from_equal<A>(
    a: Seq<A>,
    b: Seq<A>,
    order: spec_fn(A, A) -> Comparison,
    i: int,
)
    requires
        decides_equality(order),
        0 <= i,
    ensures
        compare_lists_from(a, b, order, i) is Equal <==> (a.len() <= i && b.len() <= i) || (a.len()
            == b.len() && forall|j: int| i <= j < a.len() ==> a[j] == b[j]),
    decreases a.len() - i,
{
    if i < a.len() && i < b.len() {
        assert(order(a[i], b[i]) is Equal <==> a[i] == b[i]);
        lemma_compare_lists_from_equal(a, b, order, i + 1);
    }
}

/// Swapping two lists reverses the outcome.
pub proof fn lemma_compare_lists_from_reverse<A>(
    a: Seq<A>,
    b: Seq<A>,
    order: spec_fn(A, A) -> Comparison,
    i: int,
)
    requires
        antisymmetric(order),
        0 <= i,
    ensures
        compare_lists_from(b, a, order, i) == compare_lists_from(a, b, order, i).reverse(),
    decreases a.len() - i,
{
    if i < a.len() && i < b.len() {
        assert(order(b[i], a[i]) == order(a[i], b[i]).reverse());
        lemma_compare_lists_from_reverse(a, b, order, i + 1);
    }
}

/// The order on lists is transitive, and strict as soon as one step is.
pub proof fn lemma_compare_lists_from_transitive<A>(
    a: Seq<A>,
    b: Seq<A>,
    c: Seq<A>,
    order: spec_fn(A, A) -> Comparison,
    i: int,
)
    requires
        is_total_order(order),
        0 <= i,
        !(compare_lists_from(a, b, order, i) is Greater),
        !(compare_lists_from(b, c, order, i) is Greater),
    ensures
        !(compare_lists_from(a, c, order, i) is Greater),
        compare_lists_from(a, b, order, i) is Less || compare_lists_from(b, c, order, i) is Less
            ==> compare_lists_from(a, c, order, i) is Less,
    decreases a.len() - i,
{
    if i < a.len() && i < b.len() && i < c.len() {
        let ab = order(a[i], b[i]);
        let bc = order(b[i], c[i]);
        assert(!(ab is Greater) && !(bc is Greater) ==> !(order(a[i], c[i]) is Greater) && (ab is Less
            || bc is Less ==> order(a[i], c[i]) is Less));
        if ab is Equal && bc is Equal {
            assert(a[i] == b[i] && b[i] == c[i]);
            lemma_compare_lists_from_transitive(a, b, c, order, i + 1);
        }
    }
}

/// Names are totally ordered.
pub proof fn lemma_names_totally_ordered()
    ensures
        is_total_order(name_order()),
{
    let order = name_order();
    assert forall|a: Seq<char>, b: Seq<char>| (#[trigger] order(a, b)) is Equal <==> a == b by {
        lemma_compare_names_equal(a, b);
    }
    assert forall|a: Seq<char>, b: Seq<char>| order(b, a) == (#[trigger] order(a, b)).reverse() by {
        lemma_compare_names_reverse(a, b);
    }
    assert forall|a: Seq<char>, b: Seq<char>, c: Seq<char>|
        !((#[trigger] order(a, b)) is Greater) && !((#[trigger] order(b, c)) is Greater) implies !(order(
            a,
            c,
        ) is Greater) && (order(a, b) is Less || order(b, c) is Less ==> order(a, c) is Less) by {
        lemma_compare_names_transitive(a, b, c);
    }
}

/// Compares two flags.
pub fn compare_flags(a: bool, b: bool) -> (c: Comparison)
    ensures
        c == compare_bool(a, b),
{
    if a == b {
        Comparison::Equal
    } else if b {
        Comparison::Less
    } else {
        Comparison::Greater
    }
}

/// Compares two integers.
pub fn compare_usize(a: usize, b: usize) -> (c: Comparison)
    ensures
        c == compare_int(a as int, b as int),
{
    if a < b {
        Comparison::Less
    } else if a == b {
        Comparison::Equal
    } else {
        Comparison::Greater
    }
}

/// Compares two strings as `str` is ordered: by their bytes.
pub fn compare_str(a: &str, b: &str) -> (c: Comparison)
    ensures
        c == compare_names(a@, b@),
{
    let x = a.as_bytes();
    let y = b.as_bytes();
    let mut i: usize = 0;
    while i < x.len() && i < y.len()
        invariant
            x@ == encode_utf8(a@),
            y@ == encode_utf8(b@),
            i <= x@.len(),
            i <= y@.len(),
            compare_bytes_from(x@, y@, 0) == compare_bytes_from(x@, y@, i as int),
        decreases x@.len() - i,
    {
        if x[i] < y[i] {
            return Comparison::Less;
        }
        if x[i] > y[i] {
            return Comparison::Greater;
        }
        i += 1;
    }
    if i < y.len() {
        Comparison::Less
    } else if i < x.len() {
        Comparison::Greater
    } else {
        Comparison::Equal
    }
}

/// Whether two strings are the same.
pub fn same_str(a: &str, b: &str) -> (r: bool)
    ensures
        r == (a@ == b@),
{
    proof {
        lemma_compare_names_equal(a@, b@);
    }
    match compare_str(a, b) {
        Comparison::Equal => true,
        _ => false,
    }
}

} // verus!
