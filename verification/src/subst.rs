//! Substitutions: which type stands in for which generic parameter.
//!
//! A substitution reads the type table and never adds to it, so it
//! rewrites handles whole: a handle that the table defines as a bound
//! placeholder is replaced by the handle bound to that name, and every
//! other handle stays as it is, whatever its definition refers to.

use crate::comparison::same_str;
use crate::lookup::{first_position, first_position_from};
use crate::type_argument::TypeArgument;
use crate::type_engine::{TypeConstructor, TypeEngine, TypeId};
use vstd::prelude::*;

verus! {

/// One binding: the name of a generic parameter and what replaces it.
#[derive(Clone, Debug)]
pub struct TypeSubst {
    pub parameter: String,
    pub replacement: TypeArgument,
}

/// A list of bindings. Where a name is bound twice, the first binding counts.
#[derive(Clone, Debug)]
pub struct TypeSubstMap {
    pub mapping: Vec<TypeSubst>,
}

impl TypeSubstMap {
    /// The bound names, in order.
    pub open spec fn keys(&self) -> Seq<Seq<char>> {
        Seq::new(self.mapping@.len(), |i: int| self.mapping@[i].parameter@)
    }

    /// The handle that replaces the parameter `name`, if the name is bound.
    pub open spec fn lookup(&self, name: Seq<char>) -> Option<TypeId> {
        match first_position(self.keys(), name) {
            Some(i) => Some(self.mapping@[i].replacement.type_id),
            None => None,
        }
    }

    /// A list without bindings.
    pub fn new() -> (map: TypeSubstMap)
        ensures
            map.mapping@.len() == 0,
    {
        TypeSubstMap { mapping: Vec::new() }
    }

    /// Adds a binding after those already there.
    pub fn insert(&mut self, parameter: String, replacement: TypeArgument)
        ensures
            final(self).mapping@ == old(self).mapping@.push(TypeSubst { parameter, replacement }),
    {
        self.mapping.push(TypeSubst { parameter, replacement });
    }

    /// Whether the list has no bindings.
    pub fn is_empty(&self) -> (r: bool)
        ensures
            r == (self.mapping@.len() == 0),
    {
        self.mapping.len() == 0
    }

    /// Looks a parameter up by name.
    pub fn find(&self, name: &str) -> (r: Option<TypeId>)
        ensures
            r == self.lookup(name@),
    {
        let mut i: usize = 0;
        while i < self.mapping.len()
            invariant
                i <= self.mapping@.len(),
                first_position(self.keys(), name@) == first_position_from(
                    self.keys(),
                    name@,
                    i as int,
                ),
            decreases self.mapping@.len() - i,
        {
            assert(self.keys()[i as int] == self.mapping@[i as int].parameter@);
            if same_str(self.mapping[i].parameter.as_str(), name) {
                return Some(self.mapping[i].replacement.type_id);
            }
            i += 1;
        }
        None
    }
}

/// What a substitution needs: the type table, and the bindings.
pub struct SubstTypesContext<'a> {
    pub engines: &'a TypeEngine,
    pub type_subst_map: &'a TypeSubstMap,
}

impl<'a> SubstTypesContext<'a> {
    /// The handle that takes the place of `id`: `id` is rewritten exactly
    /// when the table defines it as a placeholder whose name is bound.
    pub open spec fn matching(&self, id: TypeId) -> Option<TypeId> {
        match self.engines.placeholder_at(id) {
            Some(name) => self.type_subst_map.lookup(name),
            None => None,
        }
    }

    /// The handle that stands where `id` stood, once the substitution is made.
    pub open spec fn apply(&self, id: TypeId) -> TypeId {
        match self.matching(id) {
            Some(replacement) => replacement,
            None => id,
        }
    }

    /// Whether no replacement is itself a placeholder that the bindings
    /// rewrite, so that a second application finds nothing left to do.
    pub open spec fn settled(&self) -> bool {
        forall|i: int|
            0 <= i < self.type_subst_map.mapping@.len() ==> self.matching(
                (#[trigger] self.type_subst_map.mapping@[i]).replacement.type_id,
            ) is None
    }

    /// A context over the given table and bindings.
    pub fn new(engines: &'a TypeEngine, type_subst_map: &'a TypeSubstMap) -> (ctx:
        SubstTypesContext<'a>)
        ensures
            ctx.engines == engines,
            ctx.type_subst_map == type_subst_map,
    {
        SubstTypesContext { engines, type_subst_map }
    }

    /// The handle that takes the place of `id`, if `id` is rewritten.
    pub fn find_match(&self, id: TypeId) -> (r: Option<TypeId>)
        ensures
            r == self.matching(id),
    {
        match self.engines.get(id) {
            Some(info) => match &info.constructor {
                TypeConstructor::Placeholder(name) => self.type_subst_map.find(name.as_str()),
                _ => None,
            },
            None => None,
        }
    }
}

} // verus!
