//! Source spans. A span is carried through for diagnostics and never looked into.

use sway_types::Span;
use vstd::prelude::*;

verus! {

/// `sway_types::Span`, a region of a source file. Declared so that it can
/// stand in fields and signatures; nothing is known of what is inside.
#[verifier::external_type_specification]
#[verifier::external_body]
pub struct ExSpan(Span);

/// `<sway_types::Span as Clone>::clone`: the derived clone, which copies
/// each field, so the copy is the span it was made from.
pub assume_specification[ <Span as Clone>::clone ](span: &Span) -> (copy: Span)
    ensures
        copy == *span,
;

} // verus!
