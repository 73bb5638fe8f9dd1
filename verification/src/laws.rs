//! What holds of declarations whatever their contents: equality and
//! hashing agree and overlook spans and attributes, and substitution is
//! without effect where nothing is bound and idempotent where it settles.

use crate::hashing::digest;
use crate::lookup::lemma_first_position;
use crate::monomorphization::IsConcrete;
use crate::subst::SubstTypesContext;
use crate::ty_enum::{feed_enum, TyEnumDecl};
use crate::type_argument::{any_holds, any_matching, resolve_all, substituted_all, TypeArgument};
use crate::type_engine::{TypeEngine, TypeId};
use crate::type_parameter::{TraitConstraint, TypeParameter};
use vstd::prelude::*;

verus! {

/// Whether two lists of arguments hold the same handles, in order.
pub open spec fn same_handles(a: Seq<TypeArgument>, b: Seq<TypeArgument>) -> bool {
    a.len() == b.len() && forall|i: int|
        0 <= i < a.len() ==> (#[trigger] a[i]).type_id == b[i].type_id
}

/// Whether two bounds differ at most in spans.
pub open spec fn same_constraint_apart_from_spans(a: TraitConstraint, b: TraitConstraint) -> bool {
    a.trait_name@ == b.trait_name@ && same_handles(a.type_arguments@, b.type_arguments@)
}

/// Whether two parameters differ at most in spans.
pub open spec fn same_parameter_apart_from_spans(a: TypeParameter, b: TypeParameter) -> bool {
    &&& a.name@ == b.name@
    &&& a.kind == b.kind
    &&& a.type_id == b.type_id
    &&& a.trait_constraints@.len() == b.trait_constraints@.len()
    &&& forall|k: int|
        0 <= k < a.trait_constraints@.len() ==> same_constraint_apart_from_spans(
            #[trigger] a.trait_constraints@[k],
            b.trait_constraints@[k],
        )
    &&& match (a.default, b.default) {
        (Some(x), Some(y)) => x.type_id == y.type_id,
        (None, None) => true,
        _ => false,
    }
}

/// Whether `a` and `b` differ at most in spans and attributes: their own,
/// those of their variants, and the spans of the identifiers and type
/// arguments anywhere inside them.
pub open spec fn same_apart_from_diagnostics(a: TyEnumDecl, b: TyEnumDecl) -> bool {
    &&& a.call_path@ == b.call_path@
    &&& a.visibility == b.visibility
    &&& a.type_parameters@.len() == b.type_parameters@.len()
    &&& forall|j: int|
        0 <= j < a.type_parameters@.len() ==> same_parameter_apart_from_spans(
            #[trigger] a.type_parameters@[j],
            b.type_parameters@[j],
        )
    &&& a.variants@.len() == b.variants@.len()
    &&& forall|i: int|
        0 <= i < a.variants@.len() ==> {
            &&& (#[trigger] a.variants@[i]).name@ == b.variants@[i].name@
            &&& a.variants@[i].type_argument.type_id == b.variants@[i].type_argument.type_id
            &&& a.variants@[i].tag == b.variants@[i].tag
        }
}

proof fn lemma_spans_of_parameter_are_irrelevant(a: TypeParameter, b: TypeParameter, engines: &TypeEngine)
    requires
        same_parameter_apart_from_spans(a, b),
    ensures
        a.resolved(engines) == b.resolved(engines),
{
    assert forall|k: int| 0 <= k < a.trait_constraints@.len() implies a.trait_constraints@[k].resolved(
        engines,
    ) == b.trait_constraints@[k].resolved(engines) by {
        let x = a.trait_constraints@[k];
        let y = b.trait_constraints@[k];
        assert(same_constraint_apart_from_spans(x, y));
        assert(resolve_all(x.type_arguments@, engines) =~= resolve_all(y.type_arguments@, engines));
    }
    assert(a.resolved(engines).trait_constraints =~= b.resolved(engines).trait_constraints);
}

/// Spans and attributes do not count: two declarations that differ in
/// nothing else are equal in every table, and hash alike.
pub proof fn lemma_diagnostics_are_irrelevant(a: TyEnumDecl, b: TyEnumDecl, engines: TypeEngine)
    requires
        same_apart_from_diagnostics(a, b),
    ensures
        a.resolved(&engines) == b.resolved(&engines),
        feed_enum(a.resolved(&engines)) == feed_enum(b.resolved(&engines)),
        digest(feed_enum(a.resolved(&engines))) == digest(feed_enum(b.resolved(&engines))),
{
    assert forall|j: int| 0 <= j < a.type_parameters@.len() implies a.type_parameters@[j].resolved(
        &engines,
    ) == b.type_parameters@[j].resolved(&engines) by {
        lemma_spans_of_parameter_are_irrelevant(
            a.type_parameters@[j],
            b.type_parameters@[j],
            &engines,
        );
    }
    assert(a.resolved(&engines).type_parameters =~= b.resolved(&engines).type_parameters);
    assert forall|i: int| 0 <= i < a.variants@.len() implies a.variants@[i].resolved(&engines)
        == b.variants@[i].resolved(&engines) by {
        assert(a.variants@[i].name@ == b.variants@[i].name@);
    }
    assert(a.resolved(&engines).variants =~= b.resolved(&engines).variants);
}

/// Equal declarations hash alike, also where each is read in a table of
/// its own: the hash depends on what a declaration resolves to, not on
/// how its handles are numbered.
pub proof fn lemma_equal_declarations_hash_alike(
    a: TyEnumDecl,
    table_a: TypeEngine,
    b: TyEnumDecl,
    table_b: TypeEngine,
)
    requires
        a.resolved(&table_a) == b.resolved(&table_b),
    ensures
        feed_enum(a.resolved(&table_a)) == feed_enum(b.resolved(&table_b)),
        digest(feed_enum(a.resolved(&table_a))) == digest(feed_enum(b.resolved(&table_b))),
{
}

/// A declaration without generic parameters is concrete in every table.
pub proof fn lemma_no_parameters_is_concrete(decl: TyEnumDecl, engines: TypeEngine)
    requires
        decl.type_parameters@.len() == 0,
    ensures
        decl.concrete(&engines),
{
}

/// A substitution that puts a concrete type in place of every generic
/// parameter makes the declaration concrete.
pub proof fn lemma_subst_makes_concrete(before: TyEnumDecl, after: TyEnumDecl, ctx: SubstTypesContext)
    requires
        after.substituted_from(&before, &ctx),
        forall|j: int|
            0 <= j < before.type_parameters@.len() ==> crate::structure::ty_is_concrete(
                ctx.engines.resolve(ctx.apply((#[trigger] before.type_parameters@[j]).type_id)),
            ),
    ensures
        after.concrete(ctx.engines),
{
    assert forall|j: int| 0 <= j < after.type_parameters@.len() implies (
    #[trigger] after.type_parameters@[j]).concrete(ctx.engines) by {
        assert(after.type_parameters@[j].substituted_from(&before.type_parameters@[j], &ctx));
    }
}

proof fn lemma_growth_keeps_arguments(
    args: Seq<TypeArgument>,
    shorter: &TypeEngine,
    longer: &TypeEngine,
)
    requires
        shorter.wf(),
        longer.wf(),
        shorter.extended_by(longer),
        forall|id: TypeId| #[trigger] any_holds(args, id) ==> id.0 < shorter@.len(),
    ensures
        resolve_all(args, longer) == resolve_all(args, shorter),
{
    assert forall|i: int| 0 <= i < args.len() implies args[i].resolved(longer)
        == args[i].resolved(shorter) by {
        assert(any_holds(args, args[i].type_id));
        shorter.lemma_growth_keeps_resolutions(longer, args[i].type_id);
    }
    assert(resolve_all(args, longer) =~= resolve_all(args, shorter));
}

proof fn lemma_growth_keeps_parameter(p: TypeParameter, shorter: &TypeEngine, longer: &TypeEngine)
    requires
        shorter.wf(),
        longer.wf(),
        shorter.extended_by(longer),
        forall|id: TypeId| #[trigger] p.holds(id) ==> id.0 < shorter@.len(),
    ensures
        p.resolved(longer) == p.resolved(shorter),
{
    assert(p.holds(p.type_id));
    shorter.lemma_growth_keeps_resolutions(longer, p.type_id);
    if p.default is Some {
        let d = p.default->0.type_id;
        assert(p.holds(d));
        shorter.lemma_growth_keeps_resolutions(longer, d);
    }
    assert forall|k: int| 0 <= k < p.trait_constraints@.len() implies p.trait_constraints@[k].resolved(
        longer,
    ) == p.trait_constraints@[k].resolved(shorter) by {
        let c = p.trait_constraints@[k];
        assert forall|id: TypeId| #[trigger] any_holds(c.type_arguments@, id) implies id.0
            < shorter@.len() by {
            assert(c.holds(id));
            assert(p.holds(id));
        }
        lemma_growth_keeps_arguments(c.type_arguments@, shorter, longer);
    }
    assert(p.resolved(longer).trait_constraints =~= p.resolved(shorter).trait_constraints);
}

/// The table only grows, and a declaration does not notice: once every
/// handle of a declaration has its definition, the declaration reads the
/// same whatever is appended to the table, so what equality, hashing and
/// ordering said of it they go on saying.
pub proof fn lemma_growth_keeps_declaration(decl: TyEnumDecl, shorter: TypeEngine, longer: TypeEngine)
    requires
        shorter.wf(),
        longer.wf(),
        shorter.extended_by(&longer),
        decl.defined_in(&shorter),
    ensures
        decl.resolved(&longer) == decl.resolved(&shorter),
{
    assert forall|i: int| 0 <= i < decl.variants@.len() implies decl.variants@[i].resolved(&longer)
        == decl.variants@[i].resolved(&shorter) by {
        let id = decl.variants@[i].type_argument.type_id;
        assert(decl.variants@[i].holds(id));
        assert(decl.holds(id));
        shorter.lemma_growth_keeps_resolutions(&longer, id);
    }
    assert(decl.resolved(&longer).variants =~= decl.resolved(&shorter).variants);
    assert forall|j: int| 0 <= j < decl.type_parameters@.len() implies decl.type_parameters@[j].resolved(
        &longer,
    ) == decl.type_parameters@[j].resolved(&shorter) by {
        let p = decl.type_parameters@[j];
        assert forall|id: TypeId| #[trigger] p.holds(id) implies id.0 < shorter@.len() by {
            assert(decl.holds(id));
        }
        lemma_growth_keeps_parameter(p, &shorter, &longer);
    }
    assert(decl.resolved(&longer).type_parameters =~= decl.resolved(&shorter).type_parameters);
}

proof fn lemma_matching_argument_is_held(args: Seq<TypeArgument>, ctx: &SubstTypesContext)
    requires
        any_matching(args, ctx),
    ensures
        exists|id: TypeId| #[trigger] any_holds(args, id) && ctx.matching(id) is Some,
{
    let i = choose|i: int| 0 <= i < args.len() && ctx.matching((#[trigger] args[i]).type_id) is Some;
    assert(any_holds(args, args[i].type_id));
}

proof fn lemma_changing_parameter_holds_match(p: TypeParameter, ctx: &SubstTypesContext)
    requires
        p.changes(ctx),
    ensures
        exists|id: TypeId| #[trigger] p.holds(id) && ctx.matching(id) is Some,
{
    if ctx.matching(p.type_id) is Some {
        assert(p.holds(p.type_id));
    } else if p.default matches Some(d) && ctx.matching(d.type_id) is Some {
        assert(p.holds(p.default->0.type_id));
    } else {
        let k = choose|k: int|
            0 <= k < p.trait_constraints@.len() && (#[trigger] p.trait_constraints@[k]).changes(ctx);
        lemma_matching_argument_is_held(p.trait_constraints@[k].type_arguments@, ctx);
        let id = choose|id: TypeId| #[trigger]
            any_holds(p.trait_constraints@[k].type_arguments@, id) && ctx.matching(id) is Some;
        assert(p.trait_constraints@[k].holds(id));
        assert(p.holds(id));
    }
}

/// A declaration that the substitution changes holds a handle that the
/// substitution rewrites.
proof fn lemma_changing_declaration_holds_match(decl: TyEnumDecl, ctx: &SubstTypesContext)
    requires
        decl.changes(ctx),
    ensures
        exists|id: TypeId| #[trigger] decl.holds(id) && ctx.matching(id) is Some,
{
    if exists|i: int| 0 <= i < decl.variants@.len() && (#[trigger] decl.variants@[i]).changes(ctx) {
        let i = choose|i: int|
            0 <= i < decl.variants@.len() && (#[trigger] decl.variants@[i]).changes(ctx);
        let id = decl.variants@[i].type_argument.type_id;
        assert(decl.variants@[i].holds(id));
        assert(decl.holds(id));
    } else {
        let j = choose|j: int|
            0 <= j < decl.type_parameters@.len() && (#[trigger] decl.type_parameters@[j]).changes(
                ctx,
            );
        lemma_changing_parameter_holds_match(decl.type_parameters@[j], ctx);
        let id = choose|id: TypeId| #[trigger]
            decl.type_parameters@[j].holds(id) && ctx.matching(id) is Some;
        assert(decl.holds(id));
    }
}

proof fn lemma_held_argument_was_put(
    before: Seq<TypeArgument>,
    after: Seq<TypeArgument>,
    ctx: &SubstTypesContext,
    id: TypeId,
)
    requires
        after == substituted_all(before, ctx),
        any_holds(after, id),
    ensures
        exists|h: TypeId| #[trigger] any_holds(before, h) && ctx.apply(h) == id,
{
    let i = choose|i: int| 0 <= i < after.len() && (#[trigger] after[i]).type_id == id;
    assert(any_holds(before, before[i].type_id));
}

proof fn lemma_held_by_parameter_was_put(
    before: TypeParameter,
    after: TypeParameter,
    ctx: &SubstTypesContext,
    id: TypeId,
)
    requires
        after.substituted_from(&before, ctx),
        after.holds(id),
    ensures
        exists|h: TypeId| #[trigger] before.holds(h) && ctx.apply(h) == id,
{
    if after.type_id == id {
        assert(before.holds(before.type_id));
    } else if after.default matches Some(d) && d.type_id == id {
        assert(before.holds(before.default->0.type_id));
    } else {
        let k = choose|k: int|
            0 <= k < after.trait_constraints@.len() && (#[trigger] after.trait_constraints@[k]).holds(
                id,
            );
        lemma_held_argument_was_put(
            before.trait_constraints@[k].type_arguments@,
            after.trait_constraints@[k].type_arguments@,
            ctx,
            id,
        );
        let h = choose|h: TypeId| #[trigger]
            any_holds(before.trait_constraints@[k].type_arguments@, h) && ctx.apply(h) == id;
        assert(before.trait_constraints@[k].holds(h));
        assert(before.holds(h));
    }
}

/// Every handle that a declaration holds after a substitution is what the
/// substitution made of a handle that it held before.
proof fn lemma_held_by_declaration_was_put(
    before: TyEnumDecl,
    after: TyEnumDecl,
    ctx: &SubstTypesContext,
    id: TypeId,
)
    requires
        after.substituted_from(&before, ctx),
        after.holds(id),
    ensures
        exists|h: TypeId| #[trigger] before.holds(h) && ctx.apply(h) == id,
{
    if exists|i: int| 0 <= i < after.variants@.len() && (#[trigger] after.variants@[i]).holds(id) {
        let i = choose|i: int|
            0 <= i < after.variants@.len() && (#[trigger] after.variants@[i]).holds(id);
        let h = before.variants@[i].type_argument.type_id;
        assert(before.variants@[i].holds(h));
        assert(before.holds(h));
    } else {
        let j = choose|j: int|
            0 <= j < after.type_parameters@.len() && (#[trigger] after.type_parameters@[j]).holds(id);
        lemma_held_by_parameter_was_put(
            before.type_parameters@[j],
            after.type_parameters@[j],
            ctx,
            id,
        );
        let h = choose|h: TypeId| #[trigger]
            before.type_parameters@[j].holds(h) && ctx.apply(h) == id;
        assert(before.holds(h));
    }
}

proof fn lemma_unchanged_constraint(
    before: TraitConstraint,
    after: TraitConstraint,
    ctx: &SubstTypesContext,
    engines: &TypeEngine,
)
    requires
        after.substituted_from(&before, ctx),
        !before.changes(ctx),
    ensures
        after.resolved(engines) == before.resolved(engines),
{
    assert(after.resolved(engines).type_arguments =~= before.resolved(engines).type_arguments);
}

proof fn lemma_unchanged_parameter(
    before: TypeParameter,
    after: TypeParameter,
    ctx: &SubstTypesContext,
    engines: &TypeEngine,
)
    requires
        after.substituted_from(&before, ctx),
        !before.changes(ctx),
    ensures
        after.resolved(engines) == before.resolved(engines),
{
    assert forall|k: int| 0 <= k < after.trait_constraints@.len() implies (
    #[trigger] after.resolved(engines).trait_constraints[k]) == before.resolved(
        engines,
    ).trait_constraints[k] by {
        lemma_unchanged_constraint(
            before.trait_constraints@[k],
            after.trait_constraints@[k],
            ctx,
            engines,
        );
    }
    assert(after.resolved(engines).trait_constraints =~= before.resolved(
        engines,
    ).trait_constraints);
}

/// A substitution that changes nothing leaves the declaration equal to
/// what it was, in every table.
pub proof fn lemma_unchanged_declaration(
    before: TyEnumDecl,
    after: TyEnumDecl,
    ctx: SubstTypesContext,
    engines: TypeEngine,
)
    requires
        after.substituted_from(&before, &ctx),
        !before.changes(&ctx),
    ensures
        after.resolved(&engines) == before.resolved(&engines),
{
    assert forall|j: int| 0 <= j < after.type_parameters@.len() implies (
    #[trigger] after.resolved(&engines).type_parameters[j]) == before.resolved(
        &engines,
    ).type_parameters[j] by {
        lemma_unchanged_parameter(
            before.type_parameters@[j],
            after.type_parameters@[j],
            &ctx,
            &engines,
        );
    }
    assert(after.resolved(&engines).type_parameters =~= before.resolved(&engines).type_parameters);
    assert forall|i: int| 0 <= i < after.variants@.len() implies (#[trigger] after.resolved(
        &engines,
    ).variants[i]) == before.resolved(&engines).variants[i] by {
        assert(!before.variants@[i].changes(&ctx));
    }
    assert(after.resolved(&engines).variants =~= before.resolved(&engines).variants);
}

/// Substitution is without effect where nothing is bound: if the
/// declaration mentions none of the names that the substitution binds,
/// the substitution reports no change and its result equals the declaration.
pub proof fn lemma_subst_of_unmentioned_names(
    before: TyEnumDecl,
    after: TyEnumDecl,
    ctx: SubstTypesContext,
)
    requires
        after.substituted_from(&before, &ctx),
        forall|name: Seq<char>|
            ctx.type_subst_map.keys().contains(name) ==> !before.mentions(name, ctx.engines),
    ensures
        !before.changes(&ctx),
        after.resolved(ctx.engines) == before.resolved(ctx.engines),
{
    if before.changes(&ctx) {
        lemma_changing_declaration_holds_match(before, &ctx);
        let id = choose|id: TypeId| #[trigger] before.holds(id) && ctx.matching(id) is Some;
        let name = ctx.engines.placeholder_at(id)->0;
        lemma_first_position(ctx.type_subst_map.keys(), name);
        assert(ctx.type_subst_map.keys().contains(name));
        assert(before.mentions(name, ctx.engines));
    }
    lemma_unchanged_declaration(before, after, ctx, *ctx.engines);
}

/// Substitution is without effect on a closed declaration where none of
/// its generic parameters is bound.
pub proof fn lemma_subst_of_foreign_names(
    before: TyEnumDecl,
    after: TyEnumDecl,
    ctx: SubstTypesContext,
)
    requires
        before.closed(ctx.engines),
        after.substituted_from(&before, &ctx),
        forall|name: Seq<char>|
            ctx.type_subst_map.keys().contains(name) ==> !before.parameter_names().contains(name),
    ensures
        !before.changes(&ctx),
        after.resolved(ctx.engines) == before.resolved(ctx.engines),
{
    lemma_subst_of_unmentioned_names(before, after, ctx);
}

/// Substitution is idempotent where it settles: a second application
/// reports no change, and its result equals that of the first.
pub proof fn lemma_subst_is_idempotent(
    before: TyEnumDecl,
    once: TyEnumDecl,
    twice: TyEnumDecl,
    ctx: SubstTypesContext,
)
    requires
        before.settles(&ctx),
        once.substituted_from(&before, &ctx),
        twice.substituted_from(&once, &ctx),
    ensures
        !once.changes(&ctx),
        twice.resolved(ctx.engines) == once.resolved(ctx.engines),
{
    if once.changes(&ctx) {
        lemma_changing_declaration_holds_match(once, &ctx);
        let id = choose|id: TypeId| #[trigger] once.holds(id) && ctx.matching(id) is Some;
        lemma_held_by_declaration_was_put(before, once, &ctx, id);
    }
    lemma_unchanged_declaration(once, twice, ctx, *ctx.engines);
}

/// A substitution none of whose replacements is itself rewritten settles
/// on every declaration.
pub proof fn lemma_settled_substitution_settles(decl: TyEnumDecl, ctx: SubstTypesContext)
    requires
        ctx.settled(),
    ensures
        decl.settles(&ctx),
{
    assert forall|id: TypeId| #[trigger] decl.holds(id) implies ctx.matching(ctx.apply(id))
        is None by {
        if ctx.matching(id) is Some {
            let name = ctx.engines.placeholder_at(id)->0;
            lemma_first_position(ctx.type_subst_map.keys(), name);
        }
    }
}

} // verus!
