//! Generic parameters and the bounds written on them.

use crate::comparison::{
    compare_bool, compare_flags, compare_lists, compare_lists_from, compare_names, Comparison,
};
use crate::hashing::{
    concat_feeds, feed_args, feed_bool, feed_list, feed_name, feed_ty, write_bool, write_usize,
};
use crate::ident::Ident;
use crate::structure::{compare_args_from, compare_optional_ty, compare_ty, ty_is_concrete, Ty};
use crate::subst::SubstTypesContext;
use crate::type_argument::{
    any_holds, any_matching, compare_arguments, eq_arguments, hash_arguments, resolve_all, subst_arguments, substituted_all,
    TypeArgument,
};
use crate::type_engine::{TypeEngine, TypeId};
use std::cmp::Ordering;
use std::collections::hash_map::DefaultHasher;
use vstd::prelude::*;

verus! {

/// A bound on a generic parameter: a trait, applied to type arguments.
#[derive(Clone, Debug)]
pub struct TraitConstraint {
    pub trait_name: Ident,
    pub type_arguments: Vec<TypeArgument>,
}

/// A bound with its type arguments resolved.
pub struct ResolvedConstraint {
    pub trait_name: Seq<char>,
    pub type_arguments: Seq<Ty>,
}

/// A bound is written as the trait's name, then the list of its arguments.
pub open spec fn feed_constraint(c: ResolvedConstraint) -> Seq<Seq<u8>> {
    feed_name(c.trait_name) + feed_list(feed_args(c.type_arguments))
}

/// Bounds are ordered by the trait's name, then by their arguments.
pub open spec fn compare_constraints(a: ResolvedConstraint, b: ResolvedConstraint) -> Comparison {
    compare_names(a.trait_name, b.trait_name).chain(
        compare_args_from(a.type_arguments, b.type_arguments, 0),
    )
}

/// The comparison of bounds, as a value.
pub open spec fn constraint_order() -> spec_fn(ResolvedConstraint, ResolvedConstraint) -> Comparison {
    |a: ResolvedConstraint, b: ResolvedConstraint| compare_constraints(a, b)
}

impl TraitConstraint {
    /// Compares two bounds as they read in `engines`.
    pub fn compare(&self, other: &TraitConstraint, engines: &TypeEngine) -> (c: Comparison)
        ensures
            c == compare_constraints(self.resolved(engines), other.resolved(engines)),
    {
        let by_name = self.trait_name.compare(&other.trait_name);
        if !by_name.is_equal() {
            return by_name;
        }
        compare_arguments(&self.type_arguments, &other.type_arguments, engines)
    }

    /// The bound as it reads in `engines`.
    pub open spec fn resolved(&self, engines: &TypeEngine) -> ResolvedConstraint {
        ResolvedConstraint {
            trait_name: self.trait_name@,
            type_arguments: resolve_all(self.type_arguments@, engines),
        }
    }

    /// Whether `id` is one of the handles that the bound holds.
    pub open spec fn holds(&self, id: TypeId) -> bool {
        any_holds(self.type_arguments@, id)
    }

    /// Whether the substitution rewrites a handle of the bound.
    pub open spec fn changes(&self, ctx: &SubstTypesContext) -> bool {
        any_matching(self.type_arguments@, ctx)
    }

    /// Whether `self` is `before` with the substitution made.
    pub open spec fn substituted_from(
        &self,
        before: &TraitConstraint,
        ctx: &SubstTypesContext,
    ) -> bool {
        &&& self.trait_name == before.trait_name
        &&& self.type_arguments@ == substituted_all(before.type_arguments@, ctx)
    }

    /// Whether two bounds read the same in `engines`.
    pub fn eq(&self, other: &TraitConstraint, engines: &TypeEngine) -> (r: bool)
        ensures
            r == (self.resolved(engines) == other.resolved(engines)),
    {
        self.trait_name == other.trait_name && eq_arguments(
            &self.type_arguments,
            &other.type_arguments,
            engines,
        )
    }

    /// Writes the bound to a hasher.
    pub fn hash(&self, state: &mut DefaultHasher, engines: &TypeEngine)
        ensures
            final(state)@ == old(state)@ + feed_constraint(self.resolved(engines)),
    {
        self.trait_name.hash(state);
        hash_arguments(&self.type_arguments, state, engines);
        assert(state@ =~= old(state)@ + feed_constraint(self.resolved(engines)));
    }

    /// Makes the substitution in place, and says whether any handle was rewritten.
    pub fn subst_inner(&mut self, ctx: &SubstTypesContext) -> (changed: bool)
        ensures
            final(self).substituted_from(old(self), ctx),
            changed == old(self).changes(ctx),
    {
        subst_arguments(&mut self.type_arguments, ctx)
    }
}

/// What a generic parameter stands for.
#[derive(Clone, Copy, Debug, PartialEq, Eq, Hash, Structural)]
pub enum TypeParameterKind {
    /// A type.
    Type,
    /// A constant value.
    Const,
}

/// A generic parameter of a declaration.
#[derive(Clone, Debug)]
pub struct TypeParameter {
    pub name: Ident,
    pub kind: TypeParameterKind,
    /// The type that the parameter stands for at present: a placeholder
    /// until a substitution puts a type in its place.
    pub type_id: TypeId,
    pub trait_constraints: Vec<TraitConstraint>,
    pub default: Option<TypeArgument>,
}

/// A generic parameter with its types resolved.
pub struct ResolvedTypeParameter {
    pub name: Seq<char>,
    pub kind: TypeParameterKind,
    pub ty: Ty,
    pub trait_constraints: Seq<ResolvedConstraint>,
    pub default: Option<Ty>,
}

/// Each of `constraints` as it reads in `engines`.
pub open spec fn resolve_constraints(
    constraints: Seq<TraitConstraint>,
    engines: &TypeEngine,
) -> Seq<ResolvedConstraint> {
    Seq::new(constraints.len(), |i: int| constraints[i].resolved(engines))
}

/// What each of `constraints` writes.
pub open spec fn feed_each_constraint(constraints: Seq<ResolvedConstraint>) -> Seq<Seq<Seq<u8>>> {
    Seq::new(constraints.len(), |i: int| feed_constraint(constraints[i]))
}

/// An optional type is written as a flag, then the type if there is one.
pub open spec fn feed_optional_ty(t: Option<Ty>) -> Seq<Seq<u8>> {
    match t {
        Some(t) => feed_bool(true) + feed_ty(t),
        None => feed_bool(false),
    }
}

/// A parameter is written as its name, its kind, its type, the list of its
/// bounds, and its default.
pub open spec fn feed_parameter(p: ResolvedTypeParameter) -> Seq<Seq<u8>> {
    feed_name(p.name) + feed_bool(p.kind is Const) + feed_ty(p.ty) + feed_list(
        feed_each_constraint(p.trait_constraints),
    ) + feed_optional_ty(p.default)
}

/// Compares two lists of bounds as they read in `engines`, bound by bound.
pub fn compare_constraint_lists(
    a: &Vec<TraitConstraint>,
    b: &Vec<TraitConstraint>,
    engines: &TypeEngine,
) -> (c: Comparison)
    ensures
        c == compare_lists(
            resolve_constraints(a@, engines),
            resolve_constraints(b@, engines),
            constraint_order(),
        ),
{
    let ghost xs = resolve_constraints(a@, engines);
    let ghost ys = resolve_constraints(b@, engines);
    let mut i: usize = 0;
    while i < a.len() && i < b.len()
        invariant
            xs == resolve_constraints(a@, engines),
            ys == resolve_constraints(b@, engines),
            i <= a@.len(),
            i <= b@.len(),
            compare_lists(xs, ys, constraint_order()) == compare_lists_from(
                xs,
                ys,
                constraint_order(),
                i as int,
            ),
        decreases a@.len() - i,
    {
        let here = a[i].compare(&b[i], engines);
        if !here.is_equal() {
            return here;
        }
        i += 1;
    }
    if i < b.len() {
        Comparison::Less
    } else if i < a.len() {
        Comparison::Greater
    } else {
        Comparison::Equal
    }
}

/// Parameters are ordered by name, then kind (types before constants),
/// then type, then bounds, then default.
pub open spec fn compare_parameters(
    a: ResolvedTypeParameter,
    b: ResolvedTypeParameter,
) -> Comparison {
    compare_names(a.name, b.name).chain(compare_bool(a.kind is Const, b.kind is Const)).chain(
        compare_ty(a.ty, b.ty),
    ).chain(compare_lists(a.trait_constraints, b.trait_constraints, constraint_order())).chain(
        compare_optional_ty(a.default, b.default),
    )
}

/// The comparison of parameters, as a value.
pub open spec fn parameter_order() -> spec_fn(
    ResolvedTypeParameter,
    ResolvedTypeParameter,
) -> Comparison {
    |a: ResolvedTypeParameter, b: ResolvedTypeParameter| compare_parameters(a, b)
}

impl TypeParameter {
    /// Compares two parameters as they read in `engines`.
    pub fn compare(&self, other: &TypeParameter, engines: &TypeEngine) -> (c: Comparison)
        ensures
            c == compare_parameters(self.resolved(engines), other.resolved(engines)),
    {
        let by_name = self.name.compare(&other.name);
        if !by_name.is_equal() {
            return by_name;
        }
        let by_kind = compare_flags(
            match self.kind {
                TypeParameterKind::Type => false,
                TypeParameterKind::Const => true,
            },
            match other.kind {
                TypeParameterKind::Type => false,
                TypeParameterKind::Const => true,
            },
        );
        if !by_kind.is_equal() {
            return by_kind;
        }
        let by_type = engines.compare_types(self.type_id, other.type_id);
        if !by_type.is_equal() {
            return by_type;
        }
        let by_constraints = compare_constraint_lists(
            &self.trait_constraints,
            &other.trait_constraints,
            engines,
        );
        if !by_constraints.is_equal() {
            return by_constraints;
        }
        match (&self.default, &other.default) {
            (None, None) => Comparison::Equal,
            (None, Some(_)) => Comparison::Less,
            (Some(_), None) => Comparison::Greater,
            (Some(a), Some(b)) => a.compare(b, engines),
        }
    }

    /// The parameter as it reads in `engines`.
    pub open spec fn resolved(&self, engines: &TypeEngine) -> ResolvedTypeParameter {
        ResolvedTypeParameter {
            name: self.name@,
            kind: self.kind,
            ty: engines.resolve(self.type_id),
            trait_constraints: resolve_constraints(self.trait_constraints@, engines),
            default: match self.default {
                Some(d) => Some(d.resolved(engines)),
                None => None,
            },
        }
    }

    /// Whether no placeholder occurs in the type that the parameter stands for.
    pub open spec fn concrete(&self, engines: &TypeEngine) -> bool {
        ty_is_concrete(engines.resolve(self.type_id))
    }

    /// Compares two parameters as they read in `engines`.
    pub fn cmp(&self, other: &TypeParameter, engines: &TypeEngine) -> (o: Ordering)
        ensures
            o == compare_parameters(self.resolved(engines), other.resolved(engines)).standard(),
    {
        self.compare(other, engines).into_standard()
    }

    /// Whether `id` is one of the handles that the parameter holds: its
    /// own, one of a bound, or that of its default.
    pub open spec fn holds(&self, id: TypeId) -> bool {
        ||| self.type_id == id
        ||| exists|k: int|
            0 <= k < self.trait_constraints@.len() && (#[trigger] self.trait_constraints@[k]).holds(
                id,
            )
        ||| self.default matches Some(d) && d.type_id == id
    }

    /// Whether the substitution rewrites a handle of the parameter.
    pub open spec fn changes(&self, ctx: &SubstTypesContext) -> bool {
        ||| ctx.matching(self.type_id) is Some
        ||| exists|k: int|
            0 <= k < self.trait_constraints@.len() && (#[trigger] self.trait_constraints@[k]).changes(
                ctx,
            )
        ||| self.default matches Some(d) && ctx.matching(d.type_id) is Some
    }

    /// Whether `self` is `before` with the substitution made: every handle
    /// is rewritten, and nothing else differs.
    pub open spec fn substituted_from(
        &self,
        before: &TypeParameter,
        ctx: &SubstTypesContext,
    ) -> bool {
        &&& self.name == before.name
        &&& self.kind == before.kind
        &&& self.type_id == ctx.apply(before.type_id)
        &&& self.trait_constraints@.len() == before.trait_constraints@.len()
        &&& forall|k: int|
            0 <= k < self.trait_constraints@.len() ==> (
            #[trigger] self.trait_constraints@[k]).substituted_from(
                &before.trait_constraints@[k],
                ctx,
            )
        &&& self.default == match before.default {
            Some(d) => Some(d.substituted(ctx)),
            None => None,
        }
    }

    /// Whether two parameters read the same in `engines`.
    pub fn eq(&self, other: &TypeParameter, engines: &TypeEngine) -> (r: bool)
        ensures
            r == (self.resolved(engines) == other.resolved(engines)),
    {
        if self.name != other.name || self.kind != other.kind || !engines.eq_types(
            self.type_id,
            other.type_id,
        ) {
            return false;
        }
        let same_default = match (&self.default, &other.default) {
            (Some(a), Some(b)) => a.eq(b, engines),
            (None, None) => true,
            _ => false,
        };
        if !same_default {
            return false;
        }
        if self.trait_constraints.len() != other.trait_constraints.len() {
            assert(self.resolved(engines).trait_constraints.len() != other.resolved(
                engines,
            ).trait_constraints.len());
            return false;
        }
        let mut i: usize = 0;
        while i < self.trait_constraints.len()
            invariant
                self.trait_constraints@.len() == other.trait_constraints@.len(),
                i <= self.trait_constraints@.len(),
                forall|k: int|
                    0 <= k < i ==> self.trait_constraints@[k].resolved(engines)
                        == other.trait_constraints@[k].resolved(engines),
            decreases self.trait_constraints@.len() - i,
        {
            if !self.trait_constraints[i].eq(&other.trait_constraints[i], engines) {
                assert(self.resolved(engines).trait_constraints[i as int] != other.resolved(
                    engines,
                ).trait_constraints[i as int]);
                return false;
            }
            i += 1;
        }
        assert(self.resolved(engines).trait_constraints =~= other.resolved(
            engines,
        ).trait_constraints);
        true
    }

    /// Writes the parameter to a hasher.
    pub fn hash(&self, state: &mut DefaultHasher, engines: &TypeEngine)
        ensures
            final(state)@ == old(state)@ + feed_parameter(self.resolved(engines)),
    {
        self.name.hash(state);
        match self.kind {
            TypeParameterKind::Type => write_bool(state, false),
            TypeParameterKind::Const => write_bool(state, true),
        }
        engines.hash_type(self.type_id, state);
        write_usize(state, self.trait_constraints.len());
        let ghost parts = feed_each_constraint(self.resolved(engines).trait_constraints);
        let ghost base = state@;
        let mut i: usize = 0;
        while i < self.trait_constraints.len()
            invariant
                parts == feed_each_constraint(self.resolved(engines).trait_constraints),
                i <= self.trait_constraints@.len(),
                state@ == base + concat_feeds(parts, i as int),
            decreases self.trait_constraints@.len() - i,
        {
            let ghost before = state@;
            self.trait_constraints[i].hash(state, engines);
            assert(state@ == base + concat_feeds(parts, i + 1)) by {
                assert(before + parts[i as int] =~= base + (concat_feeds(parts, i as int)
                    + parts[i as int]));
            }
            i += 1;
        }
        match &self.default {
            Some(d) => {
                write_bool(state, true);
                d.hash(state, engines);
            },
            None => {
                write_bool(state, false);
            },
        }
        assert(state@ =~= old(state)@ + feed_parameter(self.resolved(engines)));
    }

    /// Whether no placeholder occurs in the type that the parameter stands for.
    pub fn is_concrete(&self, engines: &TypeEngine) -> (r: bool)
        ensures
            r == self.concrete(engines),
    {
        engines.is_concrete_type(self.type_id)
    }

    /// Makes the substitution in place, and says whether any handle was rewritten.
    pub fn subst_inner(&mut self, ctx: &SubstTypesContext) -> (changed: bool)
        ensures
            final(self).substituted_from(old(self), ctx),
            changed == old(self).changes(ctx),
    {
        let mut changed = match ctx.find_match(self.type_id) {
            Some(replacement) => {
                self.type_id = replacement;
                true
            },
            None => false,
        };
        let mut i: usize = 0;
        while i < self.trait_constraints.len()
            invariant
                self.name == old(self).name,
                self.kind == old(self).kind,
                self.type_id == ctx.apply(old(self).type_id),
                self.default == old(self).default,
                self.trait_constraints@.len() == old(self).trait_constraints@.len(),
                i <= self.trait_constraints@.len(),
                forall|k: int|
                    0 <= k < i ==> (#[trigger] self.trait_constraints@[k]).substituted_from(
                        &old(self).trait_constraints@[k],
                        ctx,
                    ),
                forall|k: int|
                    i <= k < self.trait_constraints@.len() ==> self.trait_constraints@[k] == old(
                        self,
                    ).trait_constraints@[k],
                changed == (ctx.matching(old(self).type_id) is Some || exists|k: int|
                    0 <= k < i && (#[trigger] old(self).trait_constraints@[k]).changes(ctx)),
            decreases self.trait_constraints@.len() - i,
        {
            let here = self.trait_constraints[i].subst_inner(ctx);
            changed = changed || here;
            i += 1;
        }
        let in_default = match &mut self.default {
            Some(d) => d.subst_inner(ctx),
            None => false,
        };
        changed || in_default
    }
}

/// Compares two lists of parameters as they read in `engines`, parameter
/// by parameter.
pub fn compare_parameter_lists(
    a: &Vec<TypeParameter>,
    b: &Vec<TypeParameter>,
    engines: &TypeEngine,
) -> (c: Comparison)
    ensures
        c == compare_lists(
            resolve_parameters(a@, engines),
            resolve_parameters(b@, engines),
            parameter_order(),
        ),
{
    let ghost xs = resolve_parameters(a@, engines);
    let ghost ys = resolve_parameters(b@, engines);
    let mut i: usize = 0;
    while i < a.len() && i < b.len()
        invariant
            xs == resolve_parameters(a@, engines),
            ys == resolve_parameters(b@, engines),
            i <= a@.len(),
            i <= b@.len(),
            compare_lists(xs, ys, parameter_order()) == compare_lists_from(
                xs,
                ys,
                parameter_order(),
                i as int,
            ),
        decreases a@.len() - i,
    {
        let here = a[i].compare(&b[i], engines);
        if !here.is_equal() {
            return here;
        }
        i += 1;
    }
    if i < b.len() {
        Comparison::Less
    } else if i < a.len() {
        Comparison::Greater
    } else {
        Comparison::Equal
    }
}

/// Each of `parameters` as it reads in `engines`.
pub open spec fn resolve_parameters(
    parameters: Seq<TypeParameter>,
    engines: &TypeEngine,
) -> Seq<ResolvedTypeParameter> {
    Seq::new(parameters.len(), |i: int| parameters[i].resolved(engines))
}

/// What each of `parameters` writes.
pub open spec fn feed_each_parameter(parameters: Seq<ResolvedTypeParameter>) -> Seq<
    Seq<Seq<u8>>,
> {
    Seq::new(parameters.len(), |i: int| feed_parameter(parameters[i]))
}

} // verus!
