//! Typed enum declarations of a compiler middle end.
//!
//! A declaration holds handles into a table of type definitions
//! ([`type_engine`]); what a handle means depends on the table. Equality,
//! hashing and ordering ([`ty_enum`], [`type_parameter`],
//! [`type_argument`]) therefore take the table as an argument and go by
//! what the handles resolve to ([`structure`]), not by their numbers.
//! Substitution ([`subst`]) puts types in place of generic parameters and
//! says whether anything changed. Variants are looked up by name, and a
//! failed lookup is recorded in a diagnostic handler ([`handler`]).
//! [`laws`] and [`order_laws`] hold what is proved of all of this, and
//! [`path`] renders paths back to source text.

pub mod attributes;
pub mod call_path;
pub mod comparison;
pub mod handler;
pub mod hashing;
pub mod ident;
pub mod laws;
pub mod lookup;
pub mod monomorphization;
pub mod order_laws;
pub mod path;
pub mod span;
pub mod structure;
pub mod subst;
pub mod ty_enum;
pub mod type_argument;
pub mod type_engine;
pub mod type_parameter;
