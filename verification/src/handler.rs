//! The diagnostic handler: where a failed lookup records what went wrong.
//!
//! The handler is held by exclusive reference while an operation records
//! into it, so that what it holds before and after can be told apart.

use crate::ident::Ident;
use sway_error::error::CompileError;
use sway_error::handler::{ErrorEmitted, Handler};
use sway_types::Span;
use vstd::prelude::*;

verus! {

/// `sway_error::handler::Handler`, the accumulator of diagnostics.
#[verifier::external_type_specification]
#[verifier::external_body]
pub struct ExHandler(Handler);

/// `sway_error::handler::ErrorEmitted`, the token that a handler gives out
/// when it records an error. It carries nothing of the error itself.
#[verifier::external_type_specification]
#[verifier::external_body]
pub struct ExErrorEmitted(ErrorEmitted);

/// An error as far as this library tells errors apart.
pub enum Diagnostic {
    /// A variant was looked up by a name that the enum does not have: the
    /// enum's name, the name that was asked for, and the span that the
    /// error points at.
    UnknownEnumVariant { enum_name: Seq<char>, variant_name: Seq<char>, span: Span },
    /// An error of any other kind.
    Other,
}

/// The errors that `handler` holds, oldest first.
pub uninterp spec fn recorded_errors(handler: Handler) -> Seq<Diagnostic>;

/// `Handler::emit_err`, called with a `CompileError::UnknownEnumVariant`
/// built from the two identifiers, which points at the span of
/// `variant_name`. `emit_err` appends the error to those that the handler
/// holds and returns a token; the contract says that the handler's errors
/// are those it held, followed by this one.
#[verifier::external_body]
pub(crate) fn emit_unknown_enum_variant(
    handler: &mut Handler,
    enum_name: &Ident,
    variant_name: &Ident,
) -> (token: ErrorEmitted)
    ensures
        recorded_errors(*final(handler)) == recorded_errors(*old(handler)).push(
            Diagnostic::UnknownEnumVariant {
                enum_name: enum_name@,
                variant_name: variant_name@,
                span: variant_name.span,
            },
        ),
{
    let span = variant_name.span.clone();
    handler.emit_err(
        CompileError::UnknownEnumVariant {
            enum_name: sway_types::Ident::new_with_override(
                enum_name.name.clone(),
                enum_name.span.clone(),
            ),
            variant_name: sway_types::Ident::new_with_override(
                variant_name.name.clone(),
                span.clone(),
            ),
            span,
        },
    )
}

} // verus!
