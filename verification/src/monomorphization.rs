//! What every kind of generic declaration offers to the code that
//! instantiates it, whatever the kind.

use crate::ident::Ident;
use crate::type_engine::{TypeEngine, TypeId};
use crate::type_parameter::TypeParameter;
use sway_error::handler::{ErrorEmitted, Handler};
use sway_types::Span;
use vstd::prelude::*;

verus! {

/// An expression that has been type-checked: the type of its value, and
/// where it was written.
#[derive(Clone, Debug)]
pub struct TyExpression {
    pub return_type: TypeId,
    pub span: Span,
}

/// The generic parameters and the name of a declaration.
pub trait MonomorphizeHelper {
    /// The generic parameters, in the order in which they were declared.
    spec fn declared_parameters(&self) -> Seq<TypeParameter>;

    /// The name under which the declaration was made.
    spec fn declared_name(&self) -> Ident;

    /// Whether the declaration is generic over the type it is written in.
    spec fn generic_over_self(&self) -> bool;

    fn type_parameters(&self) -> (parameters: &[TypeParameter])
        ensures
            parameters@ == self.declared_parameters(),
    ;

    fn name(&self) -> (name: &Ident)
        ensures
            *name == self.declared_name(),
    ;

    fn has_self_type_param(&self) -> (r: bool)
        ensures
            r == self.generic_over_self(),
    ;
}

/// Whether a declaration is ready to be compiled as it stands.
pub trait IsConcrete {
    /// Whether every generic parameter stands for a type in which no
    /// placeholder occurs.
    spec fn concrete(&self, engines: &TypeEngine) -> bool;

    fn is_concrete(&self, engines: &TypeEngine) -> (r: bool)
        ensures
            r == self.concrete(engines),
    ;
}

/// Binding a constant generic parameter to the value of an expression.
pub trait MaterializeConstGenerics {
    /// Binds the parameter `name` to `value`. A declaration that cannot
    /// make the binding records why in `handler` and returns its token.
    fn materialize_const_generics(
        &mut self,
        engines: &TypeEngine,
        handler: &mut Handler,
        name: &str,
        value: &TyExpression,
    ) -> Result<(), ErrorEmitted>;
}

} // verus!
