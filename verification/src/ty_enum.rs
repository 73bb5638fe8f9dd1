//! Typed enum declarations and their variants.
//!
//! Equality, hashing and ordering read a declaration through a type table:
//! two declarations are equal when they resolve to the same
//! [`ResolvedEnum`], whatever the handles, spans and attributes they hold.

use crate::attributes::AttributesMap;
use crate::call_path::{
    compare_paths, compare_visibility, feed_path, feed_visibility, CallPath, PathName, Visibility,
};
use crate::comparison::{
    compare_int, compare_lists, compare_lists_from, compare_names, compare_usize, Comparison,
};
use crate::handler::{emit_unknown_enum_variant, recorded_errors, Diagnostic};
use crate::hashing::{concat_feeds, digest, feed_list, feed_name, feed_ty, feed_u64, write_usize};
use crate::ident::Ident;
use crate::lookup::{first_position, first_position_from};
use crate::monomorphization::{
    IsConcrete, MaterializeConstGenerics, MonomorphizeHelper, TyExpression,
};
use crate::structure::{compare_ty, Ty};
use crate::subst::SubstTypesContext;
use crate::type_argument::TypeArgument;
use crate::type_engine::{TypeEngine, TypeId};
use crate::type_parameter::{
    compare_parameter_lists, feed_each_parameter, parameter_order, resolve_parameters,
    ResolvedTypeParameter, TypeParameter,
};
use std::cmp::Ordering;
use std::collections::hash_map::DefaultHasher;
use std::hash::Hasher;
use sway_error::handler::{ErrorEmitted, Handler};
use sway_types::Span;
use vstd::prelude::*;

verus! {

/// One arm of an enum.
#[derive(Clone, Debug)]
pub struct TyEnumVariant {
    pub name: Ident,
    pub type_argument: TypeArgument,
    pub tag: usize,
    pub span: Span,
    pub attributes: AttributesMap,
}

/// What equality, hashing and ordering see of a variant: its name, the
/// structural type of its payload, and its tag.
pub struct ResolvedVariant {
    pub name: Seq<char>,
    pub ty: Ty,
    pub tag: usize,
}

/// A variant is written as its name, its payload type, and its tag.
pub open spec fn feed_variant(v: ResolvedVariant) -> Seq<Seq<u8>> {
    feed_name(v.name) + feed_ty(v.ty) + feed_u64(v.tag as u64)
}

/// Variants are ordered by name, then by payload type, then by tag.
pub open spec fn compare_variants(a: ResolvedVariant, b: ResolvedVariant) -> Comparison {
    compare_names(a.name, b.name).chain(compare_ty(a.ty, b.ty)).chain(
        compare_int(a.tag as int, b.tag as int),
    )
}

/// The comparison of variants, as a value.
pub open spec fn variant_order() -> spec_fn(ResolvedVariant, ResolvedVariant) -> Comparison {
    |a: ResolvedVariant, b: ResolvedVariant| compare_variants(a, b)
}

impl TyEnumVariant {
    /// The variant as it reads in `engines`.
    pub open spec fn resolved(&self, engines: &TypeEngine) -> ResolvedVariant {
        ResolvedVariant {
            name: self.name@,
            ty: self.type_argument.resolved(engines),
            tag: self.tag,
        }
    }

    /// The variant once the substitution is made: the payload's handle is
    /// rewritten, and nothing else differs.
    pub open spec fn substituted(self, ctx: &SubstTypesContext) -> TyEnumVariant {
        TyEnumVariant { type_argument: self.type_argument.substituted(ctx), ..self }
    }

    /// Whether `id` is the handle of the payload.
    pub open spec fn holds(&self, id: TypeId) -> bool {
        self.type_argument.type_id == id
    }

    /// Whether the substitution rewrites the payload's handle.
    pub open spec fn changes(&self, ctx: &SubstTypesContext) -> bool {
        ctx.matching(self.type_argument.type_id) is Some
    }

    /// Where the variant was written.
    pub fn span(&self) -> (span: Span)
        ensures
            span == self.span,
    {
        self.span.clone()
    }

    /// Whether two variants read the same in `engines`.
    pub fn eq(&self, other: &TyEnumVariant, engines: &TypeEngine) -> (r: bool)
        ensures
            r == (self.resolved(engines) == other.resolved(engines)),
    {
        self.name == other.name && self.type_argument.eq(&other.type_argument, engines)
            && self.tag == other.tag
    }

    /// Writes the variant to a hasher.
    pub fn hash(&self, state: &mut DefaultHasher, engines: &TypeEngine)
        ensures
            final(state)@ == old(state)@ + feed_variant(self.resolved(engines)),
    {
        self.name.hash(state);
        self.type_argument.hash(state, engines);
        write_usize(state, self.tag);
        assert(state@ =~= old(state)@ + feed_variant(self.resolved(engines)));
    }

    /// The hash of the variant as it reads in `engines`.
    pub fn hash_value(&self, engines: &TypeEngine) -> (h: u64)
        ensures
            h == digest(feed_variant(self.resolved(engines))),
    {
        let mut state = DefaultHasher::new();
        self.hash(&mut state, engines);
        assert(state@ =~= feed_variant(self.resolved(engines)));
        state.finish()
    }

    /// Compares two variants by name, then by payload type, then by tag.
    pub fn compare(&self, other: &TyEnumVariant, engines: &TypeEngine) -> (c: Comparison)
        ensures
            c == compare_variants(self.resolved(engines), other.resolved(engines)),
    {
        let by_name = self.name.compare(&other.name);
        match by_name {
            Comparison::Equal => {},
            _ => {
                return by_name;
            },
        }
        let by_type = self.type_argument.compare(&other.type_argument, engines);
        match by_type {
            Comparison::Equal => {},
            _ => {
                return by_type;
            },
        }
        compare_usize(self.tag, other.tag)
    }

    /// Compares two variants by name, then by payload type, then by tag.
    pub fn cmp(&self, other: &TyEnumVariant, engines: &TypeEngine) -> (o: Ordering)
        ensures
            o == compare_variants(self.resolved(engines), other.resolved(engines)).standard(),
    {
        self.compare(other, engines).into_standard()
    }

    /// Makes the substitution in place, and says whether the payload's
    /// handle was rewritten.
    pub fn subst_inner(&mut self, ctx: &SubstTypesContext) -> (changed: bool)
        ensures
            *final(self) == old(self).substituted(ctx),
            changed == old(self).changes(ctx),
    {
        self.type_argument.subst_inner(ctx)
    }
}

/// Each of `variants` as it reads in `engines`.
pub open spec fn resolve_variants(variants: Seq<TyEnumVariant>, engines: &TypeEngine) -> Seq<
    ResolvedVariant,
> {
    Seq::new(variants.len(), |i: int| variants[i].resolved(engines))
}

/// Compares two lists of variants as they read in `engines`, variant by variant.
pub fn compare_variant_lists(
    a: &Vec<TyEnumVariant>,
    b: &Vec<TyEnumVariant>,
    engines: &TypeEngine,
) -> (c: Comparison)
    ensures
        c == compare_lists(
            resolve_variants(a@, engines),
            resolve_variants(b@, engines),
            variant_order(),
        ),
{
    let ghost xs = resolve_variants(a@, engines);
    let ghost ys = resolve_variants(b@, engines);
    let mut i: usize = 0;
    while i < a.len() && i < b.len()
        invariant
            xs == resolve_variants(a@, engines),
            ys == resolve_variants(b@, engines),
            i <= a@.len(),
            i <= b@.len(),
            compare_lists(xs, ys, variant_order()) == compare_lists_from(
                xs,
                ys,
                variant_order(),
                i as int,
            ),
        decreases a@.len() - i,
    {
        let here = a[i].compare(&b[i], engines);
        if !here.is_equal() {
            return here;
        }
        i += 1;
    }
    if i < b.len() {
        Comparison::Less
    } else if i < a.len() {
        Comparison::Greater
    } else {
        Comparison::Equal
    }
}

/// What each of `variants` writes.
pub open spec fn feed_each_variant(variants: Seq<ResolvedVariant>) -> Seq<Seq<Seq<u8>>> {
    Seq::new(variants.len(), |i: int| feed_variant(variants[i]))
}

/// A typed enum declaration.
#[derive(Clone, Debug)]
pub struct TyEnumDecl {
    pub call_path: CallPath,
    pub type_parameters: Vec<TypeParameter>,
    pub attributes: AttributesMap,
    pub variants: Vec<TyEnumVariant>,
    pub span: Span,
    pub visibility: Visibility,
}

/// What equality and hashing see of a declaration: its path, its generic
/// parameters and variants with their types resolved, and its visibility.
pub struct ResolvedEnum {
    pub call_path: PathName,
    pub type_parameters: Seq<ResolvedTypeParameter>,
    pub variants: Seq<ResolvedVariant>,
    pub visibility: Visibility,
}

/// A declaration is written as its path, the list of its variants, the
/// list of its generic parameters, and its visibility.
pub open spec fn feed_enum(d: ResolvedEnum) -> Seq<Seq<u8>> {
    feed_path(d.call_path) + feed_list(feed_each_variant(d.variants)) + feed_list(
        feed_each_parameter(d.type_parameters),
    ) + feed_visibility(d.visibility)
}

/// Declarations are ordered by path, then by their generic parameters,
/// then by their variants, then by visibility.
pub open spec fn compare_enums(a: ResolvedEnum, b: ResolvedEnum) -> Comparison {
    compare_paths(a.call_path, b.call_path).chain(
        compare_lists(a.type_parameters, b.type_parameters, parameter_order()),
    ).chain(compare_lists(a.variants, b.variants, variant_order())).chain(
        compare_visibility(a.visibility, b.visibility),
    )
}

impl TyEnumDecl {
    /// The declaration as it reads in `engines`.
    pub open spec fn resolved(&self, engines: &TypeEngine) -> ResolvedEnum {
        ResolvedEnum {
            call_path: self.call_path@,
            type_parameters: resolve_parameters(self.type_parameters@, engines),
            variants: resolve_variants(self.variants@, engines),
            visibility: self.visibility,
        }
    }

    /// The names of the variants, in declaration order.
    pub open spec fn variant_names(&self) -> Seq<Seq<char>> {
        Seq::new(self.variants@.len(), |i: int| self.variants@[i].name@)
    }

    /// The names of the generic parameters, in declaration order.
    pub open spec fn parameter_names(&self) -> Seq<Seq<char>> {
        Seq::new(self.type_parameters@.len(), |i: int| self.type_parameters@[i].name@)
    }

    /// Whether no two variants share a tag.
    pub open spec fn tags_distinct(&self) -> bool {
        forall|i: int, j: int|
            0 <= i < j < self.variants@.len() ==> (#[trigger] self.variants@[i]).tag != (
            #[trigger] self.variants@[j]).tag
    }

    /// Whether no two generic parameters share a name.
    pub open spec fn parameters_distinct(&self) -> bool {
        forall|i: int, j: int|
            0 <= i < j < self.type_parameters@.len() ==> (#[trigger] self.type_parameters@[i]).name@
                != (#[trigger] self.type_parameters@[j]).name@
    }

    /// Whether the declaration is well formed: no two variants share a tag,
    /// and no two generic parameters share a name.
    pub open spec fn wf(&self) -> bool {
        self.tags_distinct() && self.parameters_distinct()
    }

    /// Whether `id` is one of the handles that the declaration holds, in a
    /// variant or in a generic parameter.
    pub open spec fn holds(&self, id: TypeId) -> bool {
        ||| exists|i: int| 0 <= i < self.variants@.len() && (#[trigger] self.variants@[i]).holds(id)
        ||| exists|j: int|
            0 <= j < self.type_parameters@.len() && (#[trigger] self.type_parameters@[j]).holds(id)
    }

    /// Whether `engines` has a definition for every handle that the
    /// declaration holds.
    pub open spec fn defined_in(&self, engines: &TypeEngine) -> bool {
        forall|id: TypeId| #[trigger] self.holds(id) ==> id.0 < engines@.len()
    }

    /// Whether the declaration mentions the generic parameter `name`: one
    /// of its handles is defined in `engines` as the placeholder of that name.
    pub open spec fn mentions(&self, name: Seq<char>, engines: &TypeEngine) -> bool {
        exists|id: TypeId| #[trigger] self.holds(id) && engines.placeholder_at(id) == Some(name)
    }

    /// Whether every placeholder that the declaration mentions is one of
    /// its own generic parameters.
    pub open spec fn closed(&self, engines: &TypeEngine) -> bool {
        forall|name: Seq<char>| #[trigger]
            self.mentions(name, engines) ==> self.parameter_names().contains(name)
    }

    /// Whether one application of the substitution leaves nothing for a
    /// second: no handle that it puts into the declaration is one that it
    /// rewrites.
    pub open spec fn settles(&self, ctx: &SubstTypesContext) -> bool {
        forall|id: TypeId| #[trigger] self.holds(id) ==> ctx.matching(ctx.apply(id)) is None
    }

    /// Whether the substitution rewrites a handle of the declaration.
    pub open spec fn changes(&self, ctx: &SubstTypesContext) -> bool {
        ||| exists|i: int|
            0 <= i < self.variants@.len() && (#[trigger] self.variants@[i]).changes(ctx)
        ||| exists|j: int|
            0 <= j < self.type_parameters@.len() && (#[trigger] self.type_parameters@[j]).changes(
                ctx,
            )
    }

    /// Whether `self` is `before` with the substitution made: the handle of
    /// every variant's payload and every handle of every generic parameter
    /// is rewritten, and nothing else differs.
    pub open spec fn substituted_from(&self, before: &TyEnumDecl, ctx: &SubstTypesContext) -> bool {
        &&& self.call_path == before.call_path
        &&& self.attributes == before.attributes
        &&& self.span == before.span
        &&& self.visibility == before.visibility
        &&& self.variants@.len() == before.variants@.len()
        &&& forall|i: int|
            0 <= i < self.variants@.len() ==> #[trigger] self.variants@[i]
                == before.variants@[i].substituted(ctx)
        &&& self.type_parameters@.len() == before.type_parameters@.len()
        &&& forall|j: int|
            0 <= j < self.type_parameters@.len() ==> (
            #[trigger] self.type_parameters@[j]).substituted_from(&before.type_parameters@[j], ctx)
    }

    /// Whether the declaration is well formed.
    pub fn is_well_formed(&self) -> (r: bool)
        ensures
            r == self.wf(),
    {
        let mut j: usize = 0;
        while j < self.variants.len()
            invariant
                j <= self.variants@.len(),
                forall|a: int, b: int|
                    0 <= a < b < j ==> (#[trigger] self.variants@[a]).tag != (
                    #[trigger] self.variants@[b]).tag,
            decreases self.variants@.len() - j,
        {
            let mut i: usize = 0;
            while i < j
                invariant
                    j < self.variants@.len(),
                    i <= j,
                    forall|a: int|
                        0 <= a < i ==> (#[trigger] self.variants@[a]).tag != self.variants@[j as int].tag,
                decreases j - i,
            {
                if self.variants[i].tag == self.variants[j].tag {
                    return false;
                }
                i += 1;
            }
            j += 1;
        }
        let mut j: usize = 0;
        while j < self.type_parameters.len()
            invariant
                self.tags_distinct(),
                j <= self.type_parameters@.len(),
                forall|a: int, b: int|
                    0 <= a < b < j ==> (#[trigger] self.type_parameters@[a]).name@ != (
                    #[trigger] self.type_parameters@[b]).name@,
            decreases self.type_parameters@.len() - j,
        {
            let mut i: usize = 0;
            while i < j
                invariant
                    j < self.type_parameters@.len(),
                    i <= j,
                    forall|a: int|
                        0 <= a < i ==> (#[trigger] self.type_parameters@[a]).name@
                            != self.type_parameters@[j as int].name@,
                decreases j - i,
            {
                if self.type_parameters[i].name == self.type_parameters[j].name {
                    return false;
                }
                i += 1;
            }
            j += 1;
        }
        true
    }

    /// Builds a declaration from its parts. Parts in which two variants
    /// share a tag, or two generic parameters a name, give `None`.
    pub fn new(
        call_path: CallPath,
        type_parameters: Vec<TypeParameter>,
        attributes: AttributesMap,
        variants: Vec<TyEnumVariant>,
        span: Span,
        visibility: Visibility,
    ) -> (r: Option<TyEnumDecl>)
        ensures
            r is Some <==> (TyEnumDecl {
                call_path,
                type_parameters,
                attributes,
                variants,
                span,
                visibility,
            }).wf(),
            r matches Some(decl) ==> decl == (TyEnumDecl {
                call_path,
                type_parameters,
                attributes,
                variants,
                span,
                visibility,
            }),
    {
        let decl = TyEnumDecl { call_path, type_parameters, attributes, variants, span, visibility };
        if decl.is_well_formed() {
            Some(decl)
        } else {
            None
        }
    }

    /// Where the declaration was written.
    pub fn span(&self) -> (span: Span)
        ensures
            span == self.span,
    {
        self.span.clone()
    }

    /// Whether two declarations read the same in `engines`: the same path,
    /// the same generic parameters in the same order, the same variants in
    /// the same order, and the same visibility.
    pub fn eq(&self, other: &TyEnumDecl, engines: &TypeEngine) -> (r: bool)
        ensures
            r == (self.resolved(engines) == other.resolved(engines)),
    {
        if !self.call_path.eq(&other.call_path) {
            return false;
        }
        if self.type_parameters.len() != other.type_parameters.len() {
            assert(self.resolved(engines).type_parameters.len() != other.resolved(
                engines,
            ).type_parameters.len());
            return false;
        }
        let mut j: usize = 0;
        while j < self.type_parameters.len()
            invariant
                self.type_parameters@.len() == other.type_parameters@.len(),
                j <= self.type_parameters@.len(),
                forall|k: int|
                    0 <= k < j ==> self.type_parameters@[k].resolved(engines)
                        == other.type_parameters@[k].resolved(engines),
            decreases self.type_parameters@.len() - j,
        {
            if !self.type_parameters[j].eq(&other.type_parameters[j], engines) {
                assert(self.resolved(engines).type_parameters[j as int] != other.resolved(
                    engines,
                ).type_parameters[j as int]);
                return false;
            }
            j += 1;
        }
        assert(self.resolved(engines).type_parameters =~= other.resolved(engines).type_parameters);
        if self.variants.len() != other.variants.len() {
            assert(self.resolved(engines).variants.len() != other.resolved(engines).variants.len());
            return false;
        }
        let mut i: usize = 0;
        while i < self.variants.len()
            invariant
                self.variants@.len() == other.variants@.len(),
                i <= self.variants@.len(),
                forall|k: int|
                    0 <= k < i ==> self.variants@[k].resolved(engines) == other.variants@[k].resolved(
                        engines,
                    ),
            decreases self.variants@.len() - i,
        {
            if !self.variants[i].eq(&other.variants[i], engines) {
                assert(self.resolved(engines).variants[i as int] != other.resolved(
                    engines,
                ).variants[i as int]);
                return false;
            }
            i += 1;
        }
        assert(self.resolved(engines).variants =~= other.resolved(engines).variants);
        self.visibility == other.visibility
    }

    /// Compares two declarations as they read in `engines`: by path, then
    /// by generic parameters, then by variants, then by visibility.
    pub fn compare(&self, other: &TyEnumDecl, engines: &TypeEngine) -> (c: Comparison)
        ensures
            c == compare_enums(self.resolved(engines), other.resolved(engines)),
    {
        let by_path = self.call_path.compare(&other.call_path);
        if !by_path.is_equal() {
            return by_path;
        }
        let by_parameters = compare_parameter_lists(
            &self.type_parameters,
            &other.type_parameters,
            engines,
        );
        if !by_parameters.is_equal() {
            return by_parameters;
        }
        let by_variants = compare_variant_lists(&self.variants, &other.variants, engines);
        if !by_variants.is_equal() {
            return by_variants;
        }
        self.visibility.compare(&other.visibility)
    }

    /// Compares two declarations as they read in `engines`.
    pub fn cmp(&self, other: &TyEnumDecl, engines: &TypeEngine) -> (o: Ordering)
        ensures
            o == compare_enums(self.resolved(engines), other.resolved(engines)).standard(),
    {
        self.compare(other, engines).into_standard()
    }

    /// Writes the declaration to a hasher. The span and the attributes are
    /// not written: equality does not look at them either.
    pub fn hash(&self, state: &mut DefaultHasher, engines: &TypeEngine)
        ensures
            final(state)@ == old(state)@ + feed_enum(self.resolved(engines)),
    {
        self.call_path.hash(state);
        let ghost after_path = state@;
        write_usize(state, self.variants.len());
        let ghost variant_parts = feed_each_variant(self.resolved(engines).variants);
        let ghost base = state@;
        let mut i: usize = 0;
        while i < self.variants.len()
            invariant
                variant_parts == feed_each_variant(self.resolved(engines).variants),
                i <= self.variants@.len(),
                state@ == base + concat_feeds(variant_parts, i as int),
            decreases self.variants@.len() - i,
        {
            let ghost before = state@;
            self.variants[i].hash(state, engines);
            assert(state@ == base + concat_feeds(variant_parts, i + 1)) by {
                assert(before + variant_parts[i as int] =~= base + (concat_feeds(
                    variant_parts,
                    i as int,
                ) + variant_parts[i as int]));
            }
            i += 1;
        }
        assert(state@ =~= after_path + feed_list(variant_parts));
        let ghost after_variants = state@;
        write_usize(state, self.type_parameters.len());
        let ghost parameter_parts = feed_each_parameter(self.resolved(engines).type_parameters);
        let ghost base = state@;
        let mut j: usize = 0;
        while j < self.type_parameters.len()
            invariant
                parameter_parts == feed_each_parameter(self.resolved(engines).type_parameters),
                j <= self.type_parameters@.len(),
                state@ == base + concat_feeds(parameter_parts, j as int),
            decreases self.type_parameters@.len() - j,
        {
            let ghost before = state@;
            self.type_parameters[j].hash(state, engines);
            assert(state@ == base + concat_feeds(parameter_parts, j + 1)) by {
                assert(before + parameter_parts[j as int] =~= base + (concat_feeds(
                    parameter_parts,
                    j as int,
                ) + parameter_parts[j as int]));
            }
            j += 1;
        }
        assert(state@ =~= after_variants + feed_list(parameter_parts));
        self.visibility.hash(state);
        assert(state@ =~= old(state)@ + feed_enum(self.resolved(engines)));
    }

    /// The hash of the declaration as it reads in `engines`.
    pub fn hash_value(&self, engines: &TypeEngine) -> (h: u64)
        ensures
            h == digest(feed_enum(self.resolved(engines))),
    {
        let mut state = DefaultHasher::new();
        self.hash(&mut state, engines);
        assert(state@ =~= feed_enum(self.resolved(engines)));
        state.finish()
    }

    /// Makes the substitution through the whole declaration: in the payload
    /// of every variant and in every generic parameter. Returns the
    /// declaration that results, and whether any handle was rewritten.
    pub fn subst_inner(self, ctx: &SubstTypesContext) -> (r: (TyEnumDecl, bool))
        ensures
            r.0.substituted_from(&self, ctx),
            r.1 == self.changes(ctx),
            self.wf() ==> r.0.wf(),
    {
        let ghost before = self;
        let mut decl = self;
        let mut in_variants = false;
        let mut i: usize = 0;
        while i < decl.variants.len()
            invariant
                decl.call_path == before.call_path,
                decl.attributes == before.attributes,
                decl.span == before.span,
                decl.visibility == before.visibility,
                decl.type_parameters == before.type_parameters,
                decl.variants@.len() == before.variants@.len(),
                i <= decl.variants@.len(),
                forall|k: int|
                    0 <= k < i ==> #[trigger] decl.variants@[k] == before.variants@[k].substituted(
                        ctx,
                    ),
                forall|k: int| i <= k < decl.variants@.len() ==> decl.variants@[k] == before.variants@[k],
                in_variants == exists|k: int|
                    0 <= k < i && (#[trigger] before.variants@[k]).changes(ctx),
            decreases decl.variants@.len() - i,
        {
            let here = decl.variants[i].subst_inner(ctx);
            in_variants = in_variants || here;
            i += 1;
        }
        let mut in_parameters = false;
        let mut j: usize = 0;
        while j < decl.type_parameters.len()
            invariant
                decl.call_path == before.call_path,
                decl.attributes == before.attributes,
                decl.span == before.span,
                decl.visibility == before.visibility,
                decl.variants@.len() == before.variants@.len(),
                forall|k: int|
                    0 <= k < decl.variants@.len() ==> #[trigger] decl.variants@[k]
                        == before.variants@[k].substituted(ctx),
                decl.type_parameters@.len() == before.type_parameters@.len(),
                j <= decl.type_parameters@.len(),
                forall|k: int|
                    0 <= k < j ==> (#[trigger] decl.type_parameters@[k]).substituted_from(
                        &before.type_parameters@[k],
                        ctx,
                    ),
                forall|k: int|
                    j <= k < decl.type_parameters@.len() ==> decl.type_parameters@[k]
                        == before.type_parameters@[k],
                in_parameters == exists|k: int|
                    0 <= k < j && (#[trigger] before.type_parameters@[k]).changes(ctx),
            decreases decl.type_parameters@.len() - j,
        {
            let here = decl.type_parameters[j].subst_inner(ctx);
            in_parameters = in_parameters || here;
            j += 1;
        }
        (decl, in_variants || in_parameters)
    }

    /// Looks a variant up by name. Names are compared exactly, and the
    /// first variant of that name in declaration order is returned. Where
    /// no variant has the name, an unknown-variant error that holds the
    /// enum's name, the name asked for and its span is recorded in
    /// `handler` after the errors it holds, and the handler's token is
    /// returned.
    pub fn expect_variant_from_name(&self, handler: &mut Handler, variant_name: &Ident) -> (r:
        Result<&TyEnumVariant, ErrorEmitted>)
        ensures
            match first_position(self.variant_names(), variant_name@) {
                Some(i) => r matches Ok(variant) && *variant == self.variants@[i] && *final(handler)
                    == *old(handler),
                None => r is Err && recorded_errors(*final(handler)) == recorded_errors(
                    *old(handler),
                ).push(
                    Diagnostic::UnknownEnumVariant {
                        enum_name: self.call_path.suffix@,
                        variant_name: variant_name@,
                        span: variant_name.span,
                    },
                ),
            },
    {
        let mut i: usize = 0;
        while i < self.variants.len()
            invariant
                *handler == *old(handler),
                i <= self.variants@.len(),
                first_position(self.variant_names(), variant_name@) == first_position_from(
                    self.variant_names(),
                    variant_name@,
                    i as int,
                ),
            decreases self.variants@.len() - i,
        {
            assert(self.variant_names()[i as int] == self.variants@[i as int].name@);
            if self.variants[i].name == *variant_name {
                return Ok(&self.variants[i]);
            }
            i += 1;
        }
        Err(emit_unknown_enum_variant(handler, &self.call_path.suffix, variant_name))
    }
}

impl MonomorphizeHelper for TyEnumDecl {
    open spec fn declared_parameters(&self) -> Seq<TypeParameter> {
        self.type_parameters@
    }

    open spec fn declared_name(&self) -> Ident {
        self.call_path.suffix
    }

    /// An enum is never generic over the type it is written in.
    open spec fn generic_over_self(&self) -> bool {
        false
    }

    fn type_parameters(&self) -> (parameters: &[TypeParameter]) {
        self.type_parameters.as_slice()
    }

    fn name(&self) -> (name: &Ident) {
        &self.call_path.suffix
    }

    fn has_self_type_param(&self) -> (r: bool) {
        false
    }
}

impl IsConcrete for TyEnumDecl {
    /// A declaration without generic parameters is concrete.
    open spec fn concrete(&self, engines: &TypeEngine) -> bool {
        forall|j: int|
            0 <= j < self.type_parameters@.len() ==> (#[trigger] self.type_parameters@[j]).concrete(
                engines,
            )
    }

    fn is_concrete(&self, engines: &TypeEngine) -> (r: bool)
        ensures
            self.type_parameters@.len() == 0 ==> r,
    {
        let mut j: usize = 0;
        while j < self.type_parameters.len()
            invariant
                j <= self.type_parameters@.len(),
                forall|k: int|
                    0 <= k < j ==> (#[trigger] self.type_parameters@[k]).concrete(engines),
            decreases self.type_parameters@.len() - j,
        {
            if !self.type_parameters[j].is_concrete(engines) {
                return false;
            }
            j += 1;
        }
        true
    }
}

impl MaterializeConstGenerics for TyEnumDecl {
    /// An enum has no constant generic parameter to bind: the call
    /// succeeds, and leaves the declaration and the handler as they were.
    fn materialize_const_generics(
        &mut self,
        _engines: &TypeEngine,
        handler: &mut Handler,
        _name: &str,
        _value: &TyExpression,
    ) -> (r: Result<(), ErrorEmitted>)
        ensures
            r is Ok,
            *final(self) == *old(self),
            *final(handler) == *old(handler),
    {
        Ok(())
    }
}

} // verus!
