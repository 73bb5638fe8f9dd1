use sway_error::error::CompileError;
use sway_error::handler::Handler;
use sway_types::{Span, Spanned};
use typed_enum::attributes::AttributesMap;
use typed_enum::call_path::{CallPath, Visibility};
use typed_enum::ident::Ident;
use typed_enum::ty_enum::{TyEnumDecl, TyEnumVariant};
use typed_enum::type_argument::TypeArgument;
use typed_enum::type_engine::{TypeConstructor, TypeEngine, TypeId, TypeInfo};
use typed_enum::type_parameter::{TypeParameter, TypeParameterKind};

fn ident(name: &str) -> Ident {
    Ident::new(name.to_string(), Span::dummy())
}

fn no_attributes() -> AttributesMap {
    AttributesMap { attributes: Vec::new() }
}

fn variant(name: &str, type_id: TypeId, tag: usize) -> TyEnumVariant {
    TyEnumVariant {
        name: ident(name),
        type_argument: TypeArgument { type_id, span: Span::dummy() },
        tag,
        span: Span::dummy(),
        attributes: no_attributes(),
    }
}

/// `enum Option<T> { Some(T), None }` over a fresh table.
fn option_decl() -> (TypeEngine, TyEnumDecl) {
    let mut engines = TypeEngine::new();
    let t = engines
        .insert(TypeInfo {
            constructor: TypeConstructor::Placeholder("T".to_string()),
            type_arguments: Vec::new(),
        })
        .unwrap();
    let unit = engines
        .insert(TypeInfo { constructor: TypeConstructor::Tuple, type_arguments: Vec::new() })
        .unwrap();
    let decl = TyEnumDecl::new(
        CallPath { prefixes: vec![ident("std"), ident("option")], suffix: ident("Option"), is_absolute: true },
        vec![TypeParameter {
            name: ident("T"),
            kind: TypeParameterKind::Type,
            type_id: t,
            trait_constraints: Vec::new(),
            default: None,
        }],
        no_attributes(),
        vec![variant("Some", t, 0), variant("None", unit, 1)],
        Span::dummy(),
        Visibility::Public,
    )
    .unwrap();
    (engines, decl)
}

#[test]
fn expect_variant_returns_the_named_variant() {
    let (_engines, decl) = option_decl();
    let mut handler = Handler::default();
    let found = decl.expect_variant_from_name(&mut handler, &ident("Some")).unwrap();
    assert_eq!(found.name.as_str(), "Some");
    assert_eq!(found.tag, 0);
    assert_eq!(found.type_argument.type_id, TypeId(0));
    let none = decl.expect_variant_from_name(&mut handler, &ident("None")).unwrap();
    assert_eq!(none.tag, 1);
    assert!(!handler.has_errors());
}

#[test]
fn expect_variant_records_an_unknown_variant() {
    let (_engines, decl) = option_decl();
    let mut handler = Handler::default();
    let query = Ident::new("Maybe".to_string(), Span::from_string("Maybe".to_string()));
    let result = decl.expect_variant_from_name(&mut handler, &query);
    assert!(result.is_err());
    // the lookup can go on after a failure
    assert!(decl.expect_variant_from_name(&mut handler, &ident("None")).is_ok());
    let (errors, warnings, _infos) = handler.consume();
    assert!(warnings.is_empty());
    assert_eq!(errors.len(), 1);
    match &errors[0] {
        CompileError::UnknownEnumVariant { enum_name, variant_name, span } => {
            assert_eq!(enum_name.as_str(), "Option");
            assert_eq!(variant_name.as_str(), "Maybe");
            assert_eq!(variant_name.span(), query.span());
            assert_eq!(span.as_str(), "Maybe");
            assert_eq!(span.start(), 0);
            assert_eq!(span.end(), 5);
        }
        other => panic!("unexpected error {:?}", other),
    }
}

#[test]
fn expect_variant_is_case_sensitive() {
    let (_engines, decl) = option_decl();
    let mut handler = Handler::default();
    assert!(decl.expect_variant_from_name(&mut handler, &ident("some")).is_err());
    assert!(handler.has_errors());
}

#[test]
fn expect_variant_returns_the_first_of_two_with_one_name() {
    let decl = TyEnumDecl::new(
        CallPath { prefixes: vec![], suffix: ident("Twice"), is_absolute: false },
        vec![],
        no_attributes(),
        vec![variant("A", TypeId(0), 0), variant("B", TypeId(0), 1), variant("B", TypeId(1), 2)],
        Span::dummy(),
        Visibility::Private,
    )
    .unwrap();
    let mut handler = Handler::default();
    let found = decl.expect_variant_from_name(&mut handler, &ident("B")).unwrap();
    assert_eq!(found.tag, 1);
    assert_eq!(found.type_argument.type_id, TypeId(0));
}

#[test]
fn expect_variant_on_an_enum_without_variants_fails() {
    let decl = TyEnumDecl::new(
        CallPath { prefixes: vec![], suffix: ident("Never"), is_absolute: false },
        vec![],
        no_attributes(),
        vec![],
        Span::dummy(),
        Visibility::Private,
    )
    .unwrap();
    let mut handler = Handler::default();
    assert!(decl.expect_variant_from_name(&mut handler, &ident("A")).is_err());
    assert!(decl.expect_variant_from_name(&mut handler, &ident("")).is_err());
    let (errors, _warnings, _infos) = handler.consume();
    assert_eq!(errors.len(), 2);
    assert!(matches!(
        &errors[1],
        CompileError::UnknownEnumVariant { enum_name, variant_name, .. }
            if enum_name.as_str() == "Never" && variant_name.as_str() == ""
    ));
}

#[test]
fn expect_variant_adds_to_what_the_handler_holds() {
    let (_engines, decl) = option_decl();
    let mut handler = Handler::default();
    handler.emit_err(CompileError::UnknownEnumVariant {
        enum_name: sway_types::Ident::new_no_span("Other".to_string()),
        variant_name: sway_types::Ident::new_no_span("X".to_string()),
        span: Span::dummy(),
    });
    assert!(decl.expect_variant_from_name(&mut handler, &ident("Nothing")).is_err());
    let (errors, _warnings, _infos) = handler.consume();
    assert_eq!(errors.len(), 2);
    assert!(matches!(
        &errors[0],
        CompileError::UnknownEnumVariant { enum_name, .. } if enum_name.as_str() == "Other"
    ));
    assert!(matches!(
        &errors[1],
        CompileError::UnknownEnumVariant { enum_name, variant_name, .. }
            if enum_name.as_str() == "Option" && variant_name.as_str() == "Nothing"
    ));
}
