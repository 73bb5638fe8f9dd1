//! The table of type definitions, and the handles into it.

use crate::comparison::{compare_str, compare_usize, Comparison};
use crate::hashing::{
    concat_feeds, feed_args, feed_head, feed_list, feed_ty, feed_u64, write_str, write_u64, write_usize,
};
use crate::structure::{
    compare_args_from, compare_heads, compare_ty, lemma_compare_ty_equal, ty_is_concrete, Head, Ty,
};
use std::collections::hash_map::DefaultHasher;
use vstd::prelude::*;

verus! {

/// A handle: the position of a definition in a [`TypeEngine`].
#[derive(Clone, Copy, Debug, PartialEq, Eq, Hash, Structural)]
pub struct TypeId(pub usize);

/// What stands at the root of a type definition.
#[derive(Clone, Debug)]
pub enum TypeConstructor {
    Boolean,
    /// An unsigned integer of the given width in bits.
    UnsignedInteger(u16),
    /// A generic parameter that nothing has been put in place of yet.
    Placeholder(String),
    Tuple,
    /// An array of the given length.
    Array(usize),
    /// A named type, applied to its type arguments.
    Custom(String),
}

impl View for TypeConstructor {
    type V = Head;

    open spec fn view(&self) -> Head {
        match self {
            TypeConstructor::Boolean => Head::Boolean,
            TypeConstructor::UnsignedInteger(bits) => Head::UnsignedInteger(*bits),
            TypeConstructor::Placeholder(name) => Head::Placeholder(name@),
            TypeConstructor::Tuple => Head::Tuple,
            TypeConstructor::Array(len) => Head::Array(*len),
            TypeConstructor::Custom(name) => Head::Custom(name@),
        }
    }
}

impl TypeConstructor {
    /// Position of the variant in the order of constructors.
    fn rank(&self) -> (r: usize)
        ensures
            r == self@.rank(),
    {
        match self {
            TypeConstructor::Boolean => 0,
            TypeConstructor::UnsignedInteger(_) => 1,
            TypeConstructor::Placeholder(_) => 2,
            TypeConstructor::Tuple => 3,
            TypeConstructor::Array(_) => 4,
            TypeConstructor::Custom(_) => 5,
        }
    }

    /// Writes the constructor to a hasher.
    pub fn hash(&self, state: &mut DefaultHasher)
        ensures
            final(state)@ == old(state)@ + feed_head(self@),
    {
        write_usize(state, self.rank());
        match self {
            TypeConstructor::UnsignedInteger(bits) => write_u64(state, *bits as u64),
            TypeConstructor::Placeholder(name) => write_str(state, name.as_str()),
            TypeConstructor::Array(len) => write_usize(state, *len),
            TypeConstructor::Custom(name) => write_str(state, name.as_str()),
            _ => {},
        }
    }

    /// Compares two constructors by variant, then by what the variant carries.
    pub fn compare(&self, other: &TypeConstructor) -> (c: Comparison)
        ensures
            c == compare_heads(self@, other@),
    {
        match (self, other) {
            (TypeConstructor::UnsignedInteger(x), TypeConstructor::UnsignedInteger(y)) => {
                if *x < *y {
                    Comparison::Less
                } else if *x == *y {
                    Comparison::Equal
                } else {
                    Comparison::Greater
                }
            },
            (TypeConstructor::Placeholder(x), TypeConstructor::Placeholder(y)) => compare_str(
                x.as_str(),
                y.as_str(),
            ),
            (TypeConstructor::Array(x), TypeConstructor::Array(y)) => compare_usize(*x, *y),
            (TypeConstructor::Custom(x), TypeConstructor::Custom(y)) => compare_str(
                x.as_str(),
                y.as_str(),
            ),
            _ => compare_usize(self.rank(), other.rank()),
        }
    }
}

/// One definition: a constructor and the handles of its type arguments.
#[derive(Clone, Debug)]
pub struct TypeInfo {
    pub constructor: TypeConstructor,
    pub type_arguments: Vec<TypeId>,
}

/// Whether every definition refers only to definitions that stand before it.
pub open spec fn entries_well_formed(entries: Seq<TypeInfo>) -> bool {
    forall|i: int, j: int|
        0 <= i < entries.len() && 0 <= j < entries[i].type_arguments@.len() ==> (
        #[trigger] entries[i].type_arguments@[j]).0 < i
}

/// An append-only table of type definitions, addressed by position.
pub struct TypeEngine {
    slab: Vec<TypeInfo>,
}

impl View for TypeEngine {
    type V = Seq<TypeInfo>;

    closed spec fn view(&self) -> Seq<TypeInfo> {
        self.slab@
    }
}

impl TypeEngine {
    #[verifier::type_invariant]
    spec fn inv(&self) -> bool {
        entries_well_formed(self.slab@)
    }

    /// Whether every definition refers only to definitions that stand before it.
    /// Every table that this module hands out is well formed.
    pub open spec fn wf(&self) -> bool {
        entries_well_formed(self@)
    }

    /// The structural type that `id` denotes: its definition, with every
    /// nested handle followed. A handle past the end of the table denotes
    /// `Ty::Unknown`.
    pub open spec fn resolve(&self, id: TypeId) -> Ty
        decreases id.0,
    {
        if self.wf() && id.0 < self@.len() {
            let info = self@[id.0 as int];
            Ty::Node {
                head: info.constructor@,
                args: Seq::new(
                    info.type_arguments@.len(),
                    |j: int|
                        if 0 <= j < info.type_arguments@.len() {
                            self.resolve(info.type_arguments@[j])
                        } else {
                            Ty::Unknown
                        },
                ),
            }
        } else {
            Ty::Unknown
        }
    }

    /// The name of the placeholder that `id` is defined as, if it is one.
    pub open spec fn placeholder_at(&self, id: TypeId) -> Option<Seq<char>> {
        if id.0 < self@.len() {
            match self@[id.0 as int].constructor@ {
                Head::Placeholder(name) => Some(name),
                _ => None,
            }
        } else {
            None
        }
    }

    /// Whether `longer` holds every definition of this table, at the same
    /// place: whether it may be this table after definitions were appended.
    pub open spec fn extended_by(&self, longer: &TypeEngine) -> bool {
        self@.is_prefix_of(longer@)
    }

    /// Appending definitions changes nothing of what the handles that the
    /// table held already denote.
    pub proof fn lemma_growth_keeps_resolutions(&self, longer: &TypeEngine, id: TypeId)
        requires
            self.wf(),
            longer.wf(),
            self.extended_by(longer),
            id.0 < self@.len(),
        ensures
            longer.resolve(id) == self.resolve(id),
        decreases id.0,
    {
        let args = self@[id.0 as int].type_arguments@;
        assert(longer@[id.0 as int] == self@[id.0 as int]);
        assert forall|j: int| 0 <= j < args.len() implies longer.resolve(#[trigger] args[j])
            == self.resolve(args[j]) by {
            self.lemma_growth_keeps_resolutions(longer, args[j]);
        }
        assert(longer.resolve(id)->args =~= self.resolve(id)->args);
    }

    /// An empty table.
    pub fn new() -> (engine: TypeEngine)
        ensures
            engine@.len() == 0,
            engine.wf(),
    {
        TypeEngine { slab: Vec::new() }
    }

    /// The number of definitions.
    pub fn len(&self) -> (n: usize)
        ensures
            n == self@.len(),
    {
        self.slab.len()
    }

    /// Appends a definition and returns its handle. A definition that refers
    /// to a handle the table does not hold yet is refused, and the table is
    /// left as it was.
    pub fn insert(&mut self, info: TypeInfo) -> (r: Option<TypeId>)
        ensures
            final(self).wf(),
            r is Some <==> forall|j: int|
                0 <= j < info.type_arguments@.len() ==> (#[trigger] info.type_arguments@[j]).0
                    < old(self)@.len(),
            match r {
                Some(id) => id.0 == old(self)@.len() && final(self)@ == old(self)@.push(info),
                None => final(self)@ == old(self)@,
            },
            old(self).extended_by(final(self)),
            forall|id: TypeId|
                id.0 < old(self)@.len() ==> #[trigger] final(self).resolve(id) == old(self).resolve(
                    id,
                ),
    {
        proof {
            use_type_invariant(&*self);
        }
        let n = self.slab.len();
        let mut j: usize = 0;
        while j < info.type_arguments.len()
            invariant
                *self == *old(self),
                entries_well_formed(self.slab@),
                n == self.slab@.len(),
                j <= info.type_arguments@.len(),
                forall|k: int| 0 <= k < j ==> (#[trigger] info.type_arguments@[k]).0 < n,
            decreases info.type_arguments@.len() - j,
        {
            if info.type_arguments[j].0 >= n {
                assert(!((info.type_arguments@[j as int]).0 < n));
                return None;
            }
            j += 1;
        }
        let mut slab: Vec<TypeInfo> = Vec::new();
        core::mem::swap(&mut self.slab, &mut slab);
        slab.push(info);
        core::mem::swap(&mut self.slab, &mut slab);
        proof {
            assert forall|id: TypeId| id.0 < old(self)@.len() implies #[trigger] self.resolve(id)
                == old(self).resolve(id) by {
                old(self).lemma_growth_keeps_resolutions(&*self, id);
            }
        }
        Some(TypeId(n))
    }

    /// The definition that `id` refers to, if the table holds one.
    pub fn get(&self, id: TypeId) -> (r: Option<&TypeInfo>)
        ensures
            match r {
                Some(info) => id.0 < self@.len() && *info == self@[id.0 as int],
                None => id.0 >= self@.len(),
            },
    {
        if id.0 < self.slab.len() {
            Some(&self.slab[id.0])
        } else {
            None
        }
    }

    /// Compares what `a` denotes in this table with what `b` denotes in `other`.
    pub fn compare_across(&self, a: TypeId, other: &TypeEngine, b: TypeId) -> (c: Comparison)
        ensures
            c == compare_ty(self.resolve(a), other.resolve(b)),
        decreases a.0,
    {
        proof {
            use_type_invariant(self);
            use_type_invariant(other);
        }
        if a.0 >= self.slab.len() {
            if b.0 >= other.slab.len() {
                Comparison::Equal
            } else {
                Comparison::Less
            }
        } else if b.0 >= other.slab.len() {
            Comparison::Greater
        } else {
            let x = &self.slab[a.0];
            let y = &other.slab[b.0];
            let heads = x.constructor.compare(&y.constructor);
            if !heads.is_equal() {
                return heads;
            }
            let ghost xs = self.resolve(a)->args;
            let ghost ys = other.resolve(b)->args;
            assert(compare_ty(self.resolve(a), other.resolve(b)) == compare_args_from(xs, ys, 0));
            let mut i: usize = 0;
            while i < x.type_arguments.len() && i < y.type_arguments.len()
                invariant
                    self.wf(),
                    other.wf(),
                    a.0 < self@.len(),
                    b.0 < other@.len(),
                    *x == self@[a.0 as int],
                    *y == other@[b.0 as int],
                    xs == self.resolve(a)->args,
                    ys == other.resolve(b)->args,
                    i <= x.type_arguments@.len(),
                    i <= y.type_arguments@.len(),
                    compare_ty(self.resolve(a), other.resolve(b)) == compare_args_from(
                        xs,
                        ys,
                        i as int,
                    ),
                decreases x.type_arguments@.len() - i,
            {
                let c = self.compare_across(x.type_arguments[i], other, y.type_arguments[i]);
                assert(xs[i as int] == self.resolve(x.type_arguments@[i as int]));
                assert(ys[i as int] == other.resolve(y.type_arguments@[i as int]));
                if !c.is_equal() {
                    return c;
                }
                i += 1;
            }
            if i < y.type_arguments.len() {
                Comparison::Less
            } else if i < x.type_arguments.len() {
                Comparison::Greater
            } else {
                Comparison::Equal
            }
        }
    }

    /// Compares what two handles denote. Handles of the same number denote
    /// the same type, and are not looked into.
    pub fn compare_types(&self, a: TypeId, b: TypeId) -> (c: Comparison)
        ensures
            c == compare_ty(self.resolve(a), self.resolve(b)),
    {
        if a.0 == b.0 {
            proof {
                lemma_compare_ty_equal(self.resolve(a), self.resolve(b));
            }
            Comparison::Equal
        } else {
            self.compare_across(a, self, b)
        }
    }

    /// Whether `a` denotes in this table what `b` denotes in `other`.
    pub fn eq_across(&self, a: TypeId, other: &TypeEngine, b: TypeId) -> (r: bool)
        ensures
            r == (self.resolve(a) == other.resolve(b)),
    {
        proof {
            lemma_compare_ty_equal(self.resolve(a), other.resolve(b));
        }
        self.compare_across(a, other, b).is_equal()
    }

    /// Whether two handles denote the same structural type.
    pub fn eq_types(&self, a: TypeId, b: TypeId) -> (r: bool)
        ensures
            r == (self.resolve(a) == self.resolve(b)),
    {
        proof {
            lemma_compare_ty_equal(self.resolve(a), self.resolve(b));
        }
        self.compare_types(a, b).is_equal()
    }

    /// Writes what `id` denotes to a hasher.
    pub fn hash_type(&self, id: TypeId, state: &mut DefaultHasher)
        ensures
            final(state)@ == old(state)@ + feed_ty(self.resolve(id)),
        decreases id.0,
    {
        proof {
            use_type_invariant(self);
        }
        if id.0 >= self.slab.len() {
            write_u64(state, 6);
            return ;
        }
        let info = &self.slab[id.0];
        info.constructor.hash(state);
        write_usize(state, info.type_arguments.len());
        let ghost args = self.resolve(id)->args;
        let ghost parts = feed_args(args);
        let ghost base = old(state)@ + feed_head(info.constructor@) + feed_u64(
            info.type_arguments@.len() as u64,
        );
        let mut i: usize = 0;
        while i < info.type_arguments.len()
            invariant
                self.wf(),
                id.0 < self@.len(),
                *info == self@[id.0 as int],
                args == self.resolve(id)->args,
                parts.len() == args.len(),
                forall|k: int| 0 <= k < args.len() ==> #[trigger] parts[k] == feed_ty(args[k]),
                i <= info.type_arguments@.len(),
                state@ == base + concat_feeds(parts, i as int),
            decreases info.type_arguments@.len() - i,
        {
            let ghost before = state@;
            self.hash_type(info.type_arguments[i], state);
            assert(args[i as int] == self.resolve(info.type_arguments@[i as int]));
            assert(state@ == base + concat_feeds(parts, i + 1)) by {
                assert(before + parts[i as int] =~= base + (concat_feeds(parts, i as int)
                    + parts[i as int]));
            }
            i += 1;
        }
        assert(state@ == old(state)@ + feed_ty(self.resolve(id))) by {
            assert(args.len() == info.type_arguments@.len());
            assert(feed_ty(self.resolve(id)) == feed_head(info.constructor@) + feed_list(parts));
            assert(base + concat_feeds(parts, args.len() as int) =~= old(state)@ + (feed_head(
                info.constructor@,
            ) + feed_list(parts)));
        }
    }

    /// Whether no placeholder occurs in what `id` denotes.
    pub fn is_concrete_type(&self, id: TypeId) -> (r: bool)
        ensures
            r == ty_is_concrete(self.resolve(id)),
        decreases id.0,
    {
        proof {
            use_type_invariant(self);
        }
        if id.0 >= self.slab.len() {
            return false;
        }
        let info = &self.slab[id.0];
        if let TypeConstructor::Placeholder(_) = info.constructor {
            return false;
        }
        let ghost args = self.resolve(id)->args;
        let mut i: usize = 0;
        while i < info.type_arguments.len()
            invariant
                self.wf(),
                id.0 < self@.len(),
                *info == self@[id.0 as int],
                args == self.resolve(id)->args,
                i <= info.type_arguments@.len(),
                forall|j: int| 0 <= j < i ==> ty_is_concrete(#[trigger] args[j]),
            decreases info.type_arguments@.len() - i,
        {
            if !self.is_concrete_type(info.type_arguments[i]) {
                assert(!ty_is_concrete(args[i as int]));
                return false;
            }
            i += 1;
        }
        true
    }
}

} // verus!
