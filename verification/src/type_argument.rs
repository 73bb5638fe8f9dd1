//! Type arguments: a handle into the type table, and where it was written.

use crate::comparison::Comparison;
use crate::hashing::{concat_feeds, feed_args, feed_list, feed_ty, feed_u64, write_usize};
use crate::structure::{compare_args_from, compare_ty, ty_is_concrete, Ty};
use crate::subst::SubstTypesContext;
use crate::type_engine::{TypeEngine, TypeId};
use std::cmp::Ordering;
use std::collections::hash_map::DefaultHasher;
use sway_types::Span;
use vstd::prelude::*;

verus! {

/// A reference to a type. What it means depends on the table that its
/// handle is looked up in.
#[derive(Clone, Debug)]
pub struct TypeArgument {
    pub type_id: TypeId,
    pub span: Span,
}

impl TypeArgument {
    /// The structural type that the argument denotes in `engines`.
    pub open spec fn resolved(&self, engines: &TypeEngine) -> Ty {
        engines.resolve(self.type_id)
    }

    /// The argument once the substitution is made: the handle is rewritten,
    /// the span is kept.
    pub open spec fn substituted(self, ctx: &SubstTypesContext) -> TypeArgument {
        TypeArgument { type_id: ctx.apply(self.type_id), span: self.span }
    }

    /// Where the argument was written.
    pub fn span(&self) -> (span: Span)
        ensures
            span == self.span,
    {
        self.span.clone()
    }

    /// Whether two arguments denote the same structural type.
    pub fn eq(&self, other: &TypeArgument, engines: &TypeEngine) -> (r: bool)
        ensures
            r == (self.resolved(engines) == other.resolved(engines)),
    {
        engines.eq_types(self.type_id, other.type_id)
    }

    /// Compares what two arguments denote.
    pub fn compare(&self, other: &TypeArgument, engines: &TypeEngine) -> (c: Comparison)
        ensures
            c == compare_ty(self.resolved(engines), other.resolved(engines)),
    {
        engines.compare_types(self.type_id, other.type_id)
    }

    /// Compares what two arguments denote.
    pub fn cmp(&self, other: &TypeArgument, engines: &TypeEngine) -> (o: Ordering)
        ensures
            o == compare_ty(self.resolved(engines), other.resolved(engines)).standard(),
    {
        self.compare(other, engines).into_standard()
    }

    /// Writes what the argument denotes to a hasher.
    pub fn hash(&self, state: &mut DefaultHasher, engines: &TypeEngine)
        ensures
            final(state)@ == old(state)@ + feed_ty(self.resolved(engines)),
    {
        engines.hash_type(self.type_id, state);
    }

    /// Whether no placeholder occurs in what the argument denotes.
    pub fn is_concrete(&self, engines: &TypeEngine) -> (r: bool)
        ensures
            r == ty_is_concrete(self.resolved(engines)),
    {
        engines.is_concrete_type(self.type_id)
    }

    /// Makes the substitution in place, and says whether the handle was rewritten.
    pub fn subst_inner(&mut self, ctx: &SubstTypesContext) -> (changed: bool)
        ensures
            *final(self) == old(self).substituted(ctx),
            changed == ctx.matching(old(self).type_id) is Some,
    {
        match ctx.find_match(self.type_id) {
            Some(replacement) => {
                self.type_id = replacement;
                true
            },
            None => false,
        }
    }
}

/// What each of `args` denotes in `engines`.
pub open spec fn resolve_all(args: Seq<TypeArgument>, engines: &TypeEngine) -> Seq<Ty> {
    Seq::new(args.len(), |i: int| args[i].resolved(engines))
}

/// Each of `args` once the substitution is made.
pub open spec fn substituted_all(args: Seq<TypeArgument>, ctx: &SubstTypesContext) -> Seq<
    TypeArgument,
> {
    Seq::new(args.len(), |i: int| args[i].substituted(ctx))
}

/// Whether the substitution rewrites one of `args`.
pub open spec fn any_matching(args: Seq<TypeArgument>, ctx: &SubstTypesContext) -> bool {
    exists|i: int| 0 <= i < args.len() && ctx.matching((#[trigger] args[i]).type_id) is Some
}

/// Whether `id` is the handle of one of `args`.
pub open spec fn any_holds(args: Seq<TypeArgument>, id: TypeId) -> bool {
    exists|i: int| 0 <= i < args.len() && (#[trigger] args[i]).type_id == id
}

/// Whether two lists of arguments denote the same structural types, in order.
pub fn eq_arguments(a: &Vec<TypeArgument>, b: &Vec<TypeArgument>, engines: &TypeEngine) -> (r: bool)
    ensures
        r == (resolve_all(a@, engines) == resolve_all(b@, engines)),
{
    if a.len() != b.len() {
        assert(resolve_all(a@, engines).len() != resolve_all(b@, engines).len());
        return false;
    }
    let mut i: usize = 0;
    while i < a.len()
        invariant
            a@.len() == b@.len(),
            i <= a@.len(),
            forall|k: int| 0 <= k < i ==> a@[k].resolved(engines) == b@[k].resolved(engines),
        decreases a@.len() - i,
    {
        if !a[i].eq(&b[i], engines) {
            assert(resolve_all(a@, engines)[i as int] != resolve_all(b@, engines)[i as int]);
            return false;
        }
        i += 1;
    }
    assert(resolve_all(a@, engines) =~= resolve_all(b@, engines));
    true
}

/// Compares what two lists of arguments denote, argument by argument.
pub fn compare_arguments(a: &Vec<TypeArgument>, b: &Vec<TypeArgument>, engines: &TypeEngine) -> (c:
    Comparison)
    ensures
        c == compare_args_from(resolve_all(a@, engines), resolve_all(b@, engines), 0),
{
    let ghost xs = resolve_all(a@, engines);
    let ghost ys = resolve_all(b@, engines);
    let mut i: usize = 0;
    while i < a.len() && i < b.len()
        invariant
            xs == resolve_all(a@, engines),
            ys == resolve_all(b@, engines),
            i <= a@.len(),
            i <= b@.len(),
            compare_args_from(xs, ys, 0) == compare_args_from(xs, ys, i as int),
        decreases a@.len() - i,
    {
        let here = a[i].compare(&b[i], engines);
        if !here.is_equal() {
            return here;
        }
        i += 1;
    }
    if i < b.len() {
        Comparison::Less
    } else if i < a.len() {
        Comparison::Greater
    } else {
        Comparison::Equal
    }
}

/// Writes a list of arguments to a hasher: its length, then what each denotes.
pub fn hash_arguments(args: &Vec<TypeArgument>, state: &mut DefaultHasher, engines: &TypeEngine)
    ensures
        final(state)@ == old(state)@ + feed_list(feed_args(resolve_all(args@, engines))),
{
    write_usize(state, args.len());
    let ghost parts = feed_args(resolve_all(args@, engines));
    let ghost base = old(state)@ + feed_u64(args@.len() as u64);
    let mut i: usize = 0;
    while i < args.len()
        invariant
            parts == feed_args(resolve_all(args@, engines)),
            i <= args@.len(),
            state@ == base + concat_feeds(parts, i as int),
        decreases args@.len() - i,
    {
        let ghost before = state@;
        args[i].hash(state, engines);
        assert(state@ == base + concat_feeds(parts, i + 1)) by {
            assert(before + parts[i as int] =~= base + (concat_feeds(parts, i as int)
                + parts[i as int]));
        }
        i += 1;
    }
    assert(state@ =~= old(state)@ + feed_list(parts));
}

/// Makes the substitution in each argument, and says whether any handle was rewritten.
pub fn subst_arguments(args: &mut Vec<TypeArgument>, ctx: &SubstTypesContext) -> (changed: bool)
    ensures
        final(args)@ == substituted_all(old(args)@, ctx),
        changed == any_matching(old(args)@, ctx),
{
    let mut changed = false;
    let mut i: usize = 0;
    while i < args.len()
        invariant
            args@.len() == old(args)@.len(),
            i <= args@.len(),
            forall|k: int| 0 <= k < i ==> args@[k] == old(args)@[k].substituted(ctx),
            forall|k: int| i <= k < args@.len() ==> args@[k] == old(args)@[k],
            changed == exists|k: int|
                0 <= k < i && ctx.matching((#[trigger] old(args)@[k]).type_id) is Some,
        decreases args@.len() - i,
    {
        let here = args[i].subst_inner(ctx);
        changed = changed || here;
        i += 1;
    }
    assert(args@ =~= substituted_all(old(args)@, ctx));
    changed
}

} // verus!
