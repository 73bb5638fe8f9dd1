//! The comparisons are total orders: any two values are comparable, the
//! values that compare `Equal` are those that equality calls equal, and
//! the order is transitive. So sorting has one result.

use crate::call_path::{compare_paths, PathName};
use crate::comparison::{
    compare_lists, is_total_order, lemma_compare_lists_from_equal,
    lemma_compare_lists_from_reverse, lemma_compare_lists_from_transitive,
    lemma_compare_names_equal, lemma_compare_names_reverse, lemma_compare_names_transitive,
    lemma_names_totally_ordered, name_order, Comparison,
};
use crate::structure::{
    lemma_compare_args_equal, lemma_compare_args_from_reverse, lemma_compare_args_from_transitive,
    lemma_compare_optional_ty_equal, lemma_compare_optional_ty_reverse,
    lemma_compare_optional_ty_transitive, lemma_compare_ty_equal, lemma_compare_ty_reverse,
    lemma_compare_ty_transitive,
};
use crate::ty_enum::{
    compare_enums, compare_variants, resolve_variants, variant_order, ResolvedEnum,
    ResolvedVariant, TyEnumVariant,
};
use crate::type_engine::TypeEngine;
use crate::type_parameter::{
    compare_parameters, constraint_order, parameter_order, ResolvedConstraint,
    ResolvedTypeParameter,
};
use vstd::prelude::*;
use vstd::relations::{sorted_by, total_ordering};
use vstd::seq_lib::lemma_sorted_unique;

verus! {

/// Two lists compare `Equal` exactly when they are the same.
pub proof fn lemma_compare_lists_equal<A>(a: Seq<A>, b: Seq<A>, order: spec_fn(A, A) -> Comparison)
    requires
        is_total_order(order),
    ensures
        compare_lists(a, b, order) is Equal <==> a == b,
{
    lemma_compare_lists_from_equal(a, b, order, 0);
    if compare_lists(a, b, order) is Equal {
        assert(a =~= b);
    }
}

/// Swapping two lists reverses the outcome.
pub proof fn lemma_compare_lists_reverse<A>(a: Seq<A>, b: Seq<A>, order: spec_fn(A, A) -> Comparison)
    requires
        is_total_order(order),
    ensures
        compare_lists(b, a, order) == compare_lists(a, b, order).reverse(),
{
    lemma_compare_lists_from_reverse(a, b, order, 0);
}

/// The order on lists is transitive, and strict as soon as one step is.
pub proof fn lemma_compare_lists_transitive<A>(
    a: Seq<A>,
    b: Seq<A>,
    c: Seq<A>,
    order: spec_fn(A, A) -> Comparison,
)
    requires
        is_total_order(order),
        !(compare_lists(a, b, order) is Greater),
        !(compare_lists(b, c, order) is Greater),
    ensures
        !(compare_lists(a, c, order) is Greater),
        compare_lists(a, b, order) is Less || compare_lists(b, c, order) is Less ==> compare_lists(
            a,
            c,
            order,
        ) is Less,
{
    lemma_compare_lists_from_transitive(a, b, c, order, 0);
}

/// The comparison of paths, as a value.
pub open spec fn path_order() -> spec_fn(PathName, PathName) -> Comparison {
    |a: PathName, b: PathName| compare_paths(a, b)
}

/// Paths are totally ordered.
pub proof fn lemma_paths_totally_ordered()
    ensures
        is_total_order(path_order()),
{
    let order = path_order();
    lemma_names_totally_ordered();
    assert forall|a: PathName, b: PathName| (#[trigger] order(a, b)) is Equal <==> a == b by {
        lemma_compare_lists_equal(a.prefixes, b.prefixes, name_order());
        lemma_compare_names_equal(a.suffix, b.suffix);
    }
    assert forall|a: PathName, b: PathName| order(b, a) == (#[trigger] order(a, b)).reverse() by {
        lemma_compare_lists_reverse(a.prefixes, b.prefixes, name_order());
        lemma_compare_names_reverse(a.suffix, b.suffix);
    }
    assert forall|a: PathName, b: PathName, c: PathName|
        !((#[trigger] order(a, b)) is Greater) && !((#[trigger] order(b, c))
            is Greater) implies !(order(a, c) is Greater) && (order(a, b) is Less || order(b, c)
        is Less ==> order(a, c) is Less) by {
        lemma_compare_lists_equal(a.prefixes, b.prefixes, name_order());
        lemma_compare_lists_equal(b.prefixes, c.prefixes, name_order());
        lemma_compare_lists_transitive(a.prefixes, b.prefixes, c.prefixes, name_order());
        if a.prefixes == b.prefixes && b.prefixes == c.prefixes {
            lemma_compare_names_equal(a.suffix, b.suffix);
            lemma_compare_names_equal(b.suffix, c.suffix);
            lemma_compare_names_transitive(a.suffix, b.suffix, c.suffix);
        }
    }
}

/// Bounds are totally ordered.
pub proof fn lemma_constraints_totally_ordered()
    ensures
        is_total_order(constraint_order()),
{
    let order = constraint_order();
    assert forall|a: ResolvedConstraint, b: ResolvedConstraint| (#[trigger] order(a, b))
        is Equal <==> a == b by {
        lemma_compare_names_equal(a.trait_name, b.trait_name);
        lemma_compare_args_equal(a.type_arguments, b.type_arguments);
    }
    assert forall|a: ResolvedConstraint, b: ResolvedConstraint|
        order(b, a) == (#[trigger] order(a, b)).reverse() by {
        lemma_compare_names_reverse(a.trait_name, b.trait_name);
        lemma_compare_args_from_reverse(a.type_arguments, b.type_arguments, 0);
    }
    assert forall|a: ResolvedConstraint, b: ResolvedConstraint, c: ResolvedConstraint|
        !((#[trigger] order(a, b)) is Greater) && !((#[trigger] order(b, c))
            is Greater) implies !(order(a, c) is Greater) && (order(a, b) is Less || order(b, c)
        is Less ==> order(a, c) is Less) by {
        lemma_compare_names_equal(a.trait_name, b.trait_name);
        lemma_compare_names_equal(b.trait_name, c.trait_name);
        lemma_compare_names_transitive(a.trait_name, b.trait_name, c.trait_name);
        if a.trait_name == b.trait_name && b.trait_name == c.trait_name {
            lemma_compare_args_from_transitive(
                a.type_arguments,
                b.type_arguments,
                c.type_arguments,
                0,
            );
        }
    }
}

/// Two parameters compare `Equal` exactly when they are the same.
pub proof fn lemma_compare_parameters_equal(a: ResolvedTypeParameter, b: ResolvedTypeParameter)
    ensures
        compare_parameters(a, b) is Equal <==> a == b,
{
    lemma_constraints_totally_ordered();
    lemma_compare_names_equal(a.name, b.name);
    lemma_compare_ty_equal(a.ty, b.ty);
    lemma_compare_lists_equal(a.trait_constraints, b.trait_constraints, constraint_order());
    lemma_compare_optional_ty_equal(a.default, b.default);
}

/// Swapping two parameters reverses the outcome.
pub proof fn lemma_compare_parameters_reverse(a: ResolvedTypeParameter, b: ResolvedTypeParameter)
    ensures
        compare_parameters(b, a) == compare_parameters(a, b).reverse(),
{
    lemma_constraints_totally_ordered();
    lemma_compare_names_reverse(a.name, b.name);
    lemma_compare_ty_reverse(a.ty, b.ty);
    lemma_compare_lists_reverse(a.trait_constraints, b.trait_constraints, constraint_order());
    lemma_compare_optional_ty_reverse(a.default, b.default);
}

/// The order on parameters is transitive, and strict as soon as one step is.
pub proof fn lemma_compare_parameters_transitive(
    a: ResolvedTypeParameter,
    b: ResolvedTypeParameter,
    c: ResolvedTypeParameter,
)
    requires
        !(compare_parameters(a, b) is Greater),
        !(compare_parameters(b, c) is Greater),
    ensures
        !(compare_parameters(a, c) is Greater),
        compare_parameters(a, b) is Less || compare_parameters(b, c) is Less ==> compare_parameters(
            a,
            c,
        ) is Less,
{
    lemma_constraints_totally_ordered();
    lemma_compare_names_equal(a.name, b.name);
    lemma_compare_names_equal(b.name, c.name);
    lemma_compare_names_transitive(a.name, b.name, c.name);
    if a.name == b.name && b.name == c.name && a.kind == b.kind && b.kind == c.kind {
        lemma_compare_ty_equal(a.ty, b.ty);
        lemma_compare_ty_equal(b.ty, c.ty);
        lemma_compare_ty_transitive(a.ty, b.ty, c.ty);
        if a.ty == b.ty && b.ty == c.ty {
            let order = constraint_order();
            lemma_compare_lists_equal(a.trait_constraints, b.trait_constraints, order);
            lemma_compare_lists_equal(b.trait_constraints, c.trait_constraints, order);
            lemma_compare_lists_transitive(
                a.trait_constraints,
                b.trait_constraints,
                c.trait_constraints,
                order,
            );
            if a.trait_constraints == b.trait_constraints && b.trait_constraints
                == c.trait_constraints {
                lemma_compare_optional_ty_transitive(a.default, b.default, c.default);
            }
        }
    }
}

/// Parameters are totally ordered.
pub proof fn lemma_parameters_totally_ordered()
    ensures
        is_total_order(parameter_order()),
{
    let order = parameter_order();
    assert forall|a: ResolvedTypeParameter, b: ResolvedTypeParameter| (#[trigger] order(a, b))
        is Equal <==> a == b by {
        lemma_compare_parameters_equal(a, b);
    }
    assert forall|a: ResolvedTypeParameter, b: ResolvedTypeParameter|
        order(b, a) == (#[trigger] order(a, b)).reverse() by {
        lemma_compare_parameters_reverse(a, b);
    }
    assert forall|a: ResolvedTypeParameter, b: ResolvedTypeParameter, c: ResolvedTypeParameter|
        !((#[trigger] order(a, b)) is Greater) && !((#[trigger] order(b, c))
            is Greater) implies !(order(a, c) is Greater) && (order(a, b) is Less || order(b, c)
        is Less ==> order(a, c) is Less) by {
        lemma_compare_parameters_transitive(a, b, c);
    }
}

/// Two variants compare `Equal` exactly when they resolve alike, that is,
/// when they are equal.
pub proof fn lemma_compare_variants_equal(a: ResolvedVariant, b: ResolvedVariant)
    ensures
        compare_variants(a, b) is Equal <==> a == b,
{
    lemma_compare_names_equal(a.name, b.name);
    lemma_compare_ty_equal(a.ty, b.ty);
}

/// Swapping two variants reverses the outcome.
pub proof fn lemma_compare_variants_reverse(a: ResolvedVariant, b: ResolvedVariant)
    ensures
        compare_variants(b, a) == compare_variants(a, b).reverse(),
{
    lemma_compare_names_reverse(a.name, b.name);
    lemma_compare_ty_reverse(a.ty, b.ty);
}

/// The order on variants is transitive, and strict as soon as one step is.
pub proof fn lemma_compare_variants_transitive(
    a: ResolvedVariant,
    b: ResolvedVariant,
    c: ResolvedVariant,
)
    requires
        !(compare_variants(a, b) is Greater),
        !(compare_variants(b, c) is Greater),
    ensures
        !(compare_variants(a, c) is Greater),
        compare_variants(a, b) is Less || compare_variants(b, c) is Less ==> compare_variants(a, c)
            is Less,
{
    lemma_compare_names_transitive(a.name, b.name, c.name);
    lemma_compare_names_equal(a.name, b.name);
    lemma_compare_names_equal(b.name, c.name);
    lemma_compare_names_equal(a.name, c.name);
    if a.name == b.name && b.name == c.name {
        lemma_compare_ty_transitive(a.ty, b.ty, c.ty);
        lemma_compare_ty_equal(a.ty, b.ty);
        lemma_compare_ty_equal(b.ty, c.ty);
        lemma_compare_ty_equal(a.ty, c.ty);
    }
}

/// The relation "`a` does not come after `b`" on variants.
pub open spec fn variant_precedes() -> spec_fn(ResolvedVariant, ResolvedVariant) -> bool {
    |a: ResolvedVariant, b: ResolvedVariant| !(compare_variants(a, b) is Greater)
}

/// The order on variants is total: reflexive, antisymmetric, transitive,
/// and any two variants are comparable.
pub proof fn lemma_variant_order_is_total()
    ensures
        total_ordering(variant_precedes()),
{
    let leq = variant_precedes();
    assert forall|a: ResolvedVariant| #[trigger] leq(a, a) by {
        lemma_compare_variants_equal(a, a);
    }
    assert forall|a: ResolvedVariant, b: ResolvedVariant| #[trigger]
        leq(a, b) && #[trigger] leq(b, a) implies a == b by {
        lemma_compare_variants_reverse(a, b);
        lemma_compare_variants_equal(a, b);
    }
    assert forall|a: ResolvedVariant, b: ResolvedVariant, c: ResolvedVariant| #[trigger]
        leq(a, b) && #[trigger] leq(b, c) implies leq(a, c) by {
        lemma_compare_variants_transitive(a, b, c);
    }
    assert forall|a: ResolvedVariant, b: ResolvedVariant| #[trigger]
        leq(a, b) || #[trigger] leq(b, a) by {
        lemma_compare_variants_reverse(a, b);
    }
}

/// The variants of a list as they read in `engines`, put in order.
pub open spec fn sorted_variants(variants: Seq<TyEnumVariant>, engines: &TypeEngine) -> Seq<
    ResolvedVariant,
> {
    resolve_variants(variants, engines).sort_by(variant_precedes())
}

proof fn lemma_resolved_permutation(
    first: Seq<TyEnumVariant>,
    second: Seq<TyEnumVariant>,
    engines: &TypeEngine,
)
    requires
        first.to_multiset() == second.to_multiset(),
    ensures
        resolve_variants(first, engines).to_multiset() == resolve_variants(
            second,
            engines,
        ).to_multiset(),
    decreases first.len(),
{
    broadcast use vstd::seq_lib::group_to_multiset_ensures;
    broadcast use vstd::multiset::group_multiset_axioms;

    first.to_multiset_ensures();
    second.to_multiset_ensures();
    if first.len() == 0 {
        assert(second.len() == 0);
        assert(resolve_variants(first, engines) =~= resolve_variants(second, engines));
    } else {
        let last = first.last();
        assert(first.contains(last));
        assert(second.to_multiset().count(last) > 0);
        assert(second.contains(last));
        let i = choose|i: int| 0 <= i < second.len() && second[i] == last;
        let n = first.len() - 1;
        assert(first.remove(n) =~= first.drop_last());
        assert(first.drop_last().to_multiset() =~= second.remove(i).to_multiset());
        lemma_resolved_permutation(first.drop_last(), second.remove(i), engines);
        let r1 = resolve_variants(first, engines);
        let r2 = resolve_variants(second, engines);
        assert(resolve_variants(first.drop_last(), engines) =~= r1.remove(n));
        assert(resolve_variants(second.remove(i), engines) =~= r2.remove(i));
        r1.to_multiset_ensures();
        r2.to_multiset_ensures();
        assert(r1.to_multiset().count(r1[n]) > 0) by {
            assert(r1.contains(r1[n]));
        }
        assert(r2.to_multiset().count(r2[i]) > 0) by {
            assert(r2.contains(r2[i]));
        }
        assert(r1.to_multiset() =~= r1.remove(n).to_multiset().insert(r1[n]));
        assert(r2.to_multiset() =~= r2.remove(i).to_multiset().insert(r2[i]));
    }
}

/// Putting variants in order gives one result whatever order they came
/// in: two lists that hold the same variants, each as often, read the
/// same once sorted, in every table.
pub proof fn lemma_sorting_variants_is_deterministic(
    first: Seq<TyEnumVariant>,
    second: Seq<TyEnumVariant>,
    engines: TypeEngine,
)
    requires
        first.to_multiset() == second.to_multiset(),
    ensures
        sorted_variants(first, &engines) == sorted_variants(second, &engines),
        sorted_by(sorted_variants(first, &engines), variant_precedes()),
{
    let leq = variant_precedes();
    lemma_variant_order_is_total();
    lemma_resolved_permutation(first, second, &engines);
    let r1 = resolve_variants(first, &engines);
    let r2 = resolve_variants(second, &engines);
    r1.lemma_sort_by_ensures(leq);
    r2.lemma_sort_by_ensures(leq);
    lemma_sorted_unique(r1.sort_by(leq), r2.sort_by(leq), leq);
}

/// Variants are totally ordered.
pub proof fn lemma_variants_totally_ordered()
    ensures
        is_total_order(variant_order()),
{
    let order = variant_order();
    assert forall|a: ResolvedVariant, b: ResolvedVariant| (#[trigger] order(a, b))
        is Equal <==> a == b by {
        lemma_compare_variants_equal(a, b);
    }
    assert forall|a: ResolvedVariant, b: ResolvedVariant|
        order(b, a) == (#[trigger] order(a, b)).reverse() by {
        lemma_compare_variants_reverse(a, b);
    }
    assert forall|a: ResolvedVariant, b: ResolvedVariant, c: ResolvedVariant|
        !((#[trigger] order(a, b)) is Greater) && !((#[trigger] order(b, c))
            is Greater) implies !(order(a, c) is Greater) && (order(a, b) is Less || order(b, c)
        is Less ==> order(a, c) is Less) by {
        lemma_compare_variants_transitive(a, b, c);
    }
}

/// Two declarations compare `Equal` exactly when they are equal.
pub proof fn lemma_compare_enums_equal(a: ResolvedEnum, b: ResolvedEnum)
    ensures
        compare_enums(a, b) is Equal <==> a == b,
{
    lemma_paths_totally_ordered();
    lemma_parameters_totally_ordered();
    lemma_variants_totally_ordered();
    assert(path_order()(a.call_path, b.call_path) is Equal <==> a.call_path == b.call_path);
    lemma_compare_lists_equal(a.type_parameters, b.type_parameters, parameter_order());
    lemma_compare_lists_equal(a.variants, b.variants, variant_order());
}

/// Swapping two declarations reverses the outcome.
pub proof fn lemma_compare_enums_reverse(a: ResolvedEnum, b: ResolvedEnum)
    ensures
        compare_enums(b, a) == compare_enums(a, b).reverse(),
{
    lemma_paths_totally_ordered();
    lemma_parameters_totally_ordered();
    lemma_variants_totally_ordered();
    assert(path_order()(b.call_path, a.call_path) == path_order()(
        a.call_path,
        b.call_path,
    ).reverse());
    lemma_compare_lists_reverse(a.type_parameters, b.type_parameters, parameter_order());
    lemma_compare_lists_reverse(a.variants, b.variants, variant_order());
}

/// The order on declarations is transitive, and strict as soon as one step is.
pub proof fn lemma_compare_enums_transitive(a: ResolvedEnum, b: ResolvedEnum, c: ResolvedEnum)
    requires
        !(compare_enums(a, b) is Greater),
        !(compare_enums(b, c) is Greater),
    ensures
        !(compare_enums(a, c) is Greater),
        compare_enums(a, b) is Less || compare_enums(b, c) is Less ==> compare_enums(a, c) is Less,
{
    lemma_paths_totally_ordered();
    lemma_parameters_totally_ordered();
    lemma_variants_totally_ordered();
    let paths = path_order();
    let ab = paths(a.call_path, b.call_path);
    let bc = paths(b.call_path, c.call_path);
    assert(!(ab is Greater) && !(bc is Greater) ==> !(paths(a.call_path, c.call_path) is Greater)
        && (ab is Less || bc is Less ==> paths(a.call_path, c.call_path) is Less));
    if ab is Equal && bc is Equal {
        assert(a.call_path == b.call_path && b.call_path == c.call_path);
        assert(paths(a.call_path, c.call_path) is Equal);
        let parameters = parameter_order();
        lemma_compare_lists_equal(a.type_parameters, b.type_parameters, parameters);
        lemma_compare_lists_equal(b.type_parameters, c.type_parameters, parameters);
        lemma_compare_lists_equal(a.type_parameters, c.type_parameters, parameters);
        lemma_compare_lists_transitive(
            a.type_parameters,
            b.type_parameters,
            c.type_parameters,
            parameters,
        );
        if a.type_parameters == b.type_parameters && b.type_parameters == c.type_parameters {
            let variants = variant_order();
            lemma_compare_lists_equal(a.variants, b.variants, variants);
            lemma_compare_lists_equal(b.variants, c.variants, variants);
            lemma_compare_lists_equal(a.variants, c.variants, variants);
            lemma_compare_lists_transitive(a.variants, b.variants, c.variants, variants);
        }
    }
}

/// The comparison of declarations, as a value.
pub open spec fn enum_order() -> spec_fn(ResolvedEnum, ResolvedEnum) -> Comparison {
    |a: ResolvedEnum, b: ResolvedEnum| compare_enums(a, b)
}

/// Declarations are totally ordered.
pub proof fn lemma_enums_totally_ordered()
    ensures
        is_total_order(enum_order()),
{
    let order = enum_order();
    assert forall|a: ResolvedEnum, b: ResolvedEnum| (#[trigger] order(a, b)) is Equal <==> a
        == b by {
        lemma_compare_enums_equal(a, b);
    }
    assert forall|a: ResolvedEnum, b: ResolvedEnum|
        order(b, a) == (#[trigger] order(a, b)).reverse() by {
        lemma_compare_enums_reverse(a, b);
    }
    assert forall|a: ResolvedEnum, b: ResolvedEnum, c: ResolvedEnum|
        !((#[trigger] order(a, b)) is Greater) && !((#[trigger] order(b, c))
            is Greater) implies !(order(a, c) is Greater) && (order(a, b) is Less || order(b, c)
        is Less ==> order(a, c) is Less) by {
        lemma_compare_enums_transitive(a, b, c);
    }
}

} // verus!
