//! Attributes: the annotations and documentation comments written on an item.

use crate::ident::Ident;
use vstd::prelude::*;

verus! {

/// One annotation: its name and its arguments.
#[derive(Clone, Debug)]
pub struct Attribute {
    pub name: Ident,
    pub args: Vec<Ident>,
}

/// The annotations of an item, in the order in which they were written.
#[derive(Clone, Debug)]
pub struct AttributesMap {
    pub attributes: Vec<Attribute>,
}

} // verus!
