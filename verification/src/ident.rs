//! Identifiers: a name, and the span it was read from.

use crate::comparison::{compare_names, compare_str, Comparison};
use crate::hashing::{feed_name, write_str};
use std::collections::hash_map::DefaultHasher;
use sway_types::Span;
use vstd::prelude::*;
use vstd::std_specs::cmp::PartialEqSpecImpl;

verus! {

/// An identifier. Two identifiers are the same when their names are; the
/// span only says where the name was written.
#[derive(Clone, Debug)]
pub struct Ident {
    pub name: String,
    pub span: Span,
}

impl View for Ident {
    type V = Seq<char>;

    open spec fn view(&self) -> Seq<char> {
        self.name@
    }
}

impl PartialEq for Ident {
    fn eq(&self, other: &Ident) -> (r: bool) {
        self.name == other.name
    }
}

impl PartialEqSpecImpl for Ident {
    open spec fn obeys_eq_spec() -> bool {
        true
    }

    open spec fn eq_spec(&self, other: &Ident) -> bool {
        self.name@ == other.name@
    }
}

impl Eq for Ident {

}

impl Ident {
    /// An identifier with the given name, read from `span`.
    pub fn new(name: String, span: Span) -> (ident: Ident)
        ensures
            ident.name == name,
            ident.span == span,
    {
        Ident { name, span }
    }

    /// The name.
    pub fn as_str(&self) -> (s: &str)
        ensures
            s@ == self@,
    {
        self.name.as_str()
    }

    /// Where the name was written.
    pub fn span(&self) -> (span: Span)
        ensures
            span == self.span,
    {
        self.span.clone()
    }

    /// Compares two identifiers by name.
    pub fn compare(&self, other: &Ident) -> (c: Comparison)
        ensures
            c == compare_names(self@, other@),
    {
        compare_str(self.name.as_str(), other.name.as_str())
    }

    /// Writes the name to a hasher.
    pub fn hash(&self, state: &mut DefaultHasher)
        ensures
            final(state)@ == old(state)@ + feed_name(self@),
    {
        write_str(state, self.name.as_str());
    }
}

/// The names of a list of identifiers.
pub open spec fn names_of(idents: Seq<Ident>) -> Seq<Seq<char>> {
    Seq::new(idents.len(), |i: int| idents[i]@)
}

} // verus!
