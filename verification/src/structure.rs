//! Structural types: what a handle denotes once every nested handle has been
//! followed, and the order in which structural types are compared.

use crate::comparison::{
    compare_int, compare_names, lemma_compare_names_equal, lemma_compare_names_reverse,
    lemma_compare_names_transitive, Comparison,
};
use vstd::prelude::*;

verus! {

/// What stands at the root of a type.
pub enum Head {
    Boolean,
    /// An unsigned integer of the given width in bits.
    UnsignedInteger(u16),
    /// A generic parameter that nothing has been put in place of yet.
    Placeholder(Seq<char>),
    Tuple,
    /// An array of the given length.
    Array(usize),
    /// A named type, applied to its type arguments.
    Custom(Seq<char>),
}

/// A type with every handle followed.
pub enum Ty {
    /// What a handle denotes that its table has no definition for.
    Unknown,
    Node { head: Head, args: Seq<Ty> },
}

impl Head {
    /// Position of the variant in the order of heads.
    pub open spec fn rank(self) -> int {
        match self {
            Head::Boolean => 0,
            Head::UnsignedInteger(_) => 1,
            Head::Placeholder(_) => 2,
            Head::Tuple => 3,
            Head::Array(_) => 4,
            Head::Custom(_) => 5,
        }
    }
}

/// Heads are ordered by variant, then by what the variant carries.
pub open spec fn compare_heads(a: Head, b: Head) -> Comparison {
    match (a, b) {
        (Head::UnsignedInteger(x), Head::UnsignedInteger(y)) => compare_int(x as int, y as int),
        (Head::Placeholder(x), Head::Placeholder(y)) => compare_names(x, y),
        (Head::Array(x), Head::Array(y)) => compare_int(x as int, y as int),
        (Head::Custom(x), Head::Custom(y)) => compare_names(x, y),
        _ => compare_int(a.rank(), b.rank()),
    }
}

/// Structural types are ordered by head, then by their arguments in order.
/// `Unknown` comes before every other type.
pub open spec fn compare_ty(a: Ty, b: Ty) -> Comparison
    decreases a, 0nat,
{
    match (a, b) {
        (Ty::Unknown, Ty::Unknown) => Comparison::Equal,
        (Ty::Unknown, Ty::Node { .. }) => Comparison::Less,
        (Ty::Node { .. }, Ty::Unknown) => Comparison::Greater,
        (Ty::Node { head: ha, args: aa }, Ty::Node { head: hb, args: ab }) => compare_heads(
            ha,
            hb,
        ).chain(compare_args_from(aa, ab, 0)),
    }
}

/// Lexicographic comparison of two argument lists from position `i` on; a
/// proper prefix is smaller.
pub open spec fn compare_args_from(a: Seq<Ty>, b: Seq<Ty>, i: int) -> Comparison
    decreases a, a.len() - i,
{
    if i < 0 || i >= a.len() {
        if i < 0 || i >= b.len() {
            Comparison::Equal
        } else {
            Comparison::Less
        }
    } else if i >= b.len() {
        Comparison::Greater
    } else {
        compare_ty(a[i], b[i]).chain(compare_args_from(a, b, i + 1))
    }
}

/// Comparison of two types that may be missing: a missing one comes first.
pub open spec fn compare_optional_ty(a: Option<Ty>, b: Option<Ty>) -> Comparison {
    match (a, b) {
        (None, None) => Comparison::Equal,
        (None, Some(_)) => Comparison::Less,
        (Some(_), None) => Comparison::Greater,
        (Some(x), Some(y)) => compare_ty(x, y),
    }
}

/// Whether no placeholder occurs anywhere in the type. `Unknown` is not concrete.
pub open spec fn ty_is_concrete(t: Ty) -> bool
    decreases t,
{
    match t {
        Ty::Unknown => false,
        Ty::Node { head, args } => !(head is Placeholder) && forall|i: int|
            0 <= i < args.len() ==> ty_is_concrete(#[trigger] args[i]),
    }
}

/// Two heads compare `Equal` exactly when they are the same.
pub proof fn lemma_compare_heads_equal(a: Head, b: Head)
    ensures
        compare_heads(a, b) is Equal <==> a == b,
{
    match (a, b) {
        (Head::Placeholder(x), Head::Placeholder(y)) => lemma_compare_names_equal(x, y),
        (Head::Custom(x), Head::Custom(y)) => lemma_compare_names_equal(x, y),
        _ => {},
    }
}

/// Swapping two heads reverses the outcome.
pub proof fn lemma_compare_heads_reverse(a: Head, b: Head)
    ensures
        compare_heads(b, a) == compare_heads(a, b).reverse(),
{
    match (a, b) {
        (Head::Placeholder(x), Head::Placeholder(y)) => lemma_compare_names_reverse(x, y),
        (Head::Custom(x), Head::Custom(y)) => lemma_compare_names_reverse(x, y),
        _ => {},
    }
}

/// The order on heads is transitive, and strict as soon as one step is.
pub proof fn lemma_compare_heads_transitive(a: Head, b: Head, c: Head)
    requires
        !(compare_heads(a, b) is Greater),
        !(compare_heads(b, c) is Greater),
    ensures
        !(compare_heads(a, c) is Greater),
        compare_heads(a, b) is Less || compare_heads(b, c) is Less ==> compare_heads(a, c) is Less,
{
    match (a, b, c) {
        (
            Head::Placeholder(x),
            Head::Placeholder(y),
            Head::Placeholder(z),
        ) => lemma_compare_names_transitive(x, y, z),
        (Head::Custom(x), Head::Custom(y), Head::Custom(z)) => lemma_compare_names_transitive(
            x,
            y,
            z,
        ),
        _ => {},
    }
}

/// Two structural types compare `Equal` exactly when they are the same.
pub proof fn lemma_compare_ty_equal(a: Ty, b: Ty)
    ensures
        compare_ty(a, b) is Equal <==> a == b,
    decreases a, 0nat,
{
    match (a, b) {
        (Ty::Node { head: ha, args: aa }, Ty::Node { head: hb, args: ab }) => {
            lemma_compare_heads_equal(ha, hb);
            lemma_compare_args_from_equal(aa, ab, 0);
            if compare_ty(a, b) is Equal {
                assert(aa =~= ab);
            }
        },
        _ => {},
    }
}

/// From position `i` on, two argument lists compare `Equal` exactly when they agree there.
pub proof fn lemma_compare_args_from_equal(a: Seq<Ty>, b: Seq<Ty>, i: int)
    requires
        0 <= i,
    ensures
        compare_args_from(a, b, i) is Equal <==> (a.len() <= i && b.len() <= i) || (a.len()
            == b.len() && forall|j: int| i <= j < a.len() ==> a[j] == b[j]),
    decreases a, a.len() - i,
{
    if i < a.len() && i < b.len() {
        lemma_compare_ty_equal(a[i], b[i]);
        lemma_compare_args_from_equal(a, b, i + 1);
    }
}

/// Swapping two structural types reverses the outcome.
pub proof fn lemma_compare_ty_reverse(a: Ty, b: Ty)
    ensures
        compare_ty(b, a) == compare_ty(a, b).reverse(),
    decreases a, 0nat,
{
    match (a, b) {
        (Ty::Node { head: ha, args: aa }, Ty::Node { head: hb, args: ab }) => {
            lemma_compare_heads_reverse(ha, hb);
            lemma_compare_args_from_reverse(aa, ab, 0);
        },
        _ => {},
    }
}

/// Swapping two argument lists reverses the outcome.
pub proof fn lemma_compare_args_from_reverse(a: Seq<Ty>, b: Seq<Ty>, i: int)
    requires
        0 <= i,
    ensures
        compare_args_from(b, a, i) == compare_args_from(a, b, i).reverse(),
    decreases a, a.len() - i,
{
    if i < a.len() && i < b.len() {
        lemma_compare_ty_reverse(a[i], b[i]);
        lemma_compare_args_from_reverse(a, b, i + 1);
    }
}

/// The order on structural types is transitive, and strict as soon as one step is.
pub proof fn lemma_compare_ty_transitive(a: Ty, b: Ty, c: Ty)
    requires
        !(compare_ty(a, b) is Greater),
        !(compare_ty(b, c) is Greater),
    ensures
        !(compare_ty(a, c) is Greater),
        compare_ty(a, b) is Less || compare_ty(b, c) is Less ==> compare_ty(a, c) is Less,
    decreases a, 0nat,
{
    match (a, b, c) {
        (
            Ty::Node { head: ha, args: aa },
            Ty::Node { head: hb, args: ab },
            Ty::Node { head: hc, args: ac },
        ) => {
            lemma_compare_heads_transitive(ha, hb, hc);
            if compare_heads(ha, hb) is Equal && compare_heads(hb, hc) is Equal {
                lemma_compare_args_from_transitive(aa, ab, ac, 0);
            }
        },
        _ => {},
    }
}

/// The order on argument lists is transitive, and strict as soon as one step is.
pub proof fn lemma_compare_args_from_transitive(a: Seq<Ty>, b: Seq<Ty>, c: Seq<Ty>, i: int)
    requires
        0 <= i,
        !(compare_args_from(a, b, i) is Greater),
        !(compare_args_from(b, c, i) is Greater),
    ensures
        !(compare_args_from(a, c, i) is Greater),
        compare_args_from(a, b, i) is Less || compare_args_from(b, c, i) is Less
            ==> compare_args_from(a, c, i) is Less,
    decreases a, a.len() - i,
{
    if i < a.len() && i < b.len() && i < c.len() {
        lemma_compare_ty_transitive(a[i], b[i], c[i]);
        if compare_ty(a[i], b[i]) is Equal && compare_ty(b[i], c[i]) is Equal {
            lemma_compare_args_from_transitive(a, b, c, i + 1);
        }
    }
}

/// Two lists of structural types compare `Equal` exactly when they are the same.
pub proof fn lemma_compare_args_equal(a: Seq<Ty>, b: Seq<Ty>)
    ensures
        compare_args_from(a, b, 0) is Equal <==> a == b,
{
    lemma_compare_args_from_equal(a, b, 0);
    if compare_args_from(a, b, 0) is Equal {
        assert(a =~= b);
    }
}

/// Two optional types compare `Equal` exactly when they are the same.
pub proof fn lemma_compare_optional_ty_equal(a: Option<Ty>, b: Option<Ty>)
    ensures
        compare_optional_ty(a, b) is Equal <==> a == b,
{
    if a is Some && b is Some {
        lemma_compare_ty_equal(a->0, b->0);
    }
}

/// Swapping two optional types reverses the outcome.
pub proof fn lemma_compare_optional_ty_reverse(a: Option<Ty>, b: Option<Ty>)
    ensures
        compare_optional_ty(b, a) == compare_optional_ty(a, b).reverse(),
{
    if a is Some && b is Some {
        lemma_compare_ty_reverse(a->0, b->0);
    }
}

/// The order on optional types is transitive, and strict as soon as one step is.
pub proof fn lemma_compare_optional_ty_transitive(a: Option<Ty>, b: Option<Ty>, c: Option<Ty>)
    requires
        !(compare_optional_ty(a, b) is Greater),
        !(compare_optional_ty(b, c) is Greater),
    ensures
        !(compare_optional_ty(a, c) is Greater),
        compare_optional_ty(a, b) is Less || compare_optional_ty(b, c) is Less
            ==> compare_optional_ty(a, c) is Less,
{
    if a is Some && b is Some && c is Some {
        lemma_compare_ty_transitive(a->0, b->0, c->0);
    }
}

} // verus!
