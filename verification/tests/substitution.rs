use sway_error::handler::Handler;
use sway_types::Span;
use typed_enum::attributes::{Attribute, AttributesMap};
use typed_enum::call_path::{CallPath, Visibility};
use typed_enum::ident::Ident;
use typed_enum::monomorphization::{IsConcrete, MaterializeConstGenerics, MonomorphizeHelper, TyExpression};
use typed_enum::subst::{SubstTypesContext, TypeSubstMap};
use typed_enum::ty_enum::{TyEnumDecl, TyEnumVariant};
use typed_enum::type_argument::{subst_arguments, TypeArgument};
use typed_enum::type_engine::{TypeConstructor, TypeEngine, TypeId, TypeInfo};
use typed_enum::type_parameter::{TraitConstraint, TypeParameter, TypeParameterKind};

fn ident(name: &str) -> Ident {
    Ident::new(name.to_string(), Span::dummy())
}

fn argument(type_id: TypeId) -> TypeArgument {
    TypeArgument { type_id, span: Span::dummy() }
}

fn variant(name: &str, type_id: TypeId, tag: usize) -> TyEnumVariant {
    TyEnumVariant {
        name: ident(name),
        type_argument: argument(type_id),
        tag,
        span: Span::from_string(name.to_string()),
        attributes: AttributesMap {
            attributes: vec![Attribute { name: ident("doc"), args: vec![ident(name)] }],
        },
    }
}

fn parameter(name: &str, type_id: TypeId) -> TypeParameter {
    TypeParameter {
        name: ident(name),
        kind: TypeParameterKind::Type,
        type_id,
        trait_constraints: Vec::new(),
        default: None,
    }
}

fn node(engines: &mut TypeEngine, constructor: TypeConstructor, args: Vec<TypeId>) -> TypeId {
    engines.insert(TypeInfo { constructor, type_arguments: args }).unwrap()
}

fn placeholder(engines: &mut TypeEngine, name: &str) -> TypeId {
    node(engines, TypeConstructor::Placeholder(name.to_string()), vec![])
}

fn decl(name: &str, parameters: Vec<TypeParameter>, variants: Vec<TyEnumVariant>) -> TyEnumDecl {
    TyEnumDecl::new(
        CallPath { prefixes: vec![], suffix: ident(name), is_absolute: false },
        parameters,
        AttributesMap { attributes: vec![Attribute { name: ident("inline"), args: vec![] }] },
        variants,
        Span::from_string(name.to_string()),
        Visibility::Public,
    )
    .unwrap()
}

fn bind(pairs: &[(&str, TypeId)]) -> TypeSubstMap {
    let mut map = TypeSubstMap::new();
    assert!(map.is_empty());
    for (name, type_id) in pairs {
        map.insert(name.to_string(), argument(*type_id));
    }
    map
}

struct Fixture {
    engines: TypeEngine,
    t: TypeId,
    u: TypeId,
    unit: TypeId,
    u64_id: TypeId,
    boolean: TypeId,
}

fn fixture() -> Fixture {
    let mut engines = TypeEngine::new();
    let t = placeholder(&mut engines, "T");
    let u = placeholder(&mut engines, "U");
    let unit = node(&mut engines, TypeConstructor::Tuple, vec![]);
    let u64_id = node(&mut engines, TypeConstructor::UnsignedInteger(64), vec![]);
    let boolean = node(&mut engines, TypeConstructor::Boolean, vec![]);
    Fixture { engines, t, u, unit, u64_id, boolean }
}

fn option(f: &Fixture) -> TyEnumDecl {
    decl("Option", vec![parameter("T", f.t)], vec![variant("Some", f.t, 0), variant("None", f.unit, 1)])
}

#[test]
fn substituting_the_parameter_makes_option_concrete() {
    let f = fixture();
    let generic = option(&f);
    assert!(!generic.is_concrete(&f.engines));
    let map = bind(&[("T", f.u64_id)]);
    let ctx = SubstTypesContext::new(&f.engines, &map);
    let (instance, changed) = generic.clone().subst_inner(&ctx);
    assert!(changed);
    assert!(instance.is_concrete(&f.engines));
    assert!(!generic.is_concrete(&f.engines));
    assert_eq!(instance.type_parameters[0].type_id, f.u64_id);
    assert_eq!(instance.variants[0].type_argument.type_id, f.u64_id);
    assert_eq!(instance.variants[1].type_argument.type_id, f.unit);
    assert!(!instance.eq(&generic, &f.engines));
}

#[test]
fn substitution_keeps_all_but_the_handles() {
    let f = fixture();
    let generic = option(&f);
    let map = bind(&[("T", f.boolean)]);
    let ctx = SubstTypesContext::new(&f.engines, &map);
    let (instance, changed) = generic.clone().subst_inner(&ctx);
    assert!(changed);
    assert!(instance.call_path.eq(&generic.call_path));
    assert_eq!(instance.visibility, generic.visibility);
    assert_eq!(instance.span(), generic.span());
    assert_eq!(instance.span().as_str(), "Option");
    assert_eq!(instance.attributes.attributes.len(), 1);
    assert_eq!(instance.attributes.attributes[0].name.as_str(), "inline");
    assert_eq!(instance.variants.len(), 2);
    for (after, before) in instance.variants.iter().zip(generic.variants.iter()) {
        assert_eq!(after.name.as_str(), before.name.as_str());
        assert_eq!(after.tag, before.tag);
        assert_eq!(after.span(), before.span());
        assert_eq!(after.type_argument.span(), before.type_argument.span());
        assert_eq!(after.attributes.attributes[0].args[0].as_str(), before.name.as_str());
    }
    assert_eq!(instance.type_parameters[0].name.as_str(), "T");
    assert!(instance.is_well_formed());
}

#[test]
fn substitution_of_names_that_do_not_occur_changes_nothing() {
    let f = fixture();
    let generic = option(&f);
    for map in [bind(&[]), bind(&[("U", f.u64_id)]), bind(&[("V", f.boolean), ("t", f.u64_id)])] {
        let ctx = SubstTypesContext::new(&f.engines, &map);
        let (same, changed) = generic.clone().subst_inner(&ctx);
        assert!(!changed);
        assert!(same.eq(&generic, &f.engines));
        assert_eq!(same.hash_value(&f.engines), generic.hash_value(&f.engines));
        assert_eq!(same.variants[0].type_argument.type_id, f.t);
        assert_eq!(same.type_parameters[0].type_id, f.t);
    }
}

#[test]
fn a_second_substitution_changes_nothing() {
    let f = fixture();
    let generic = decl(
        "Either",
        vec![parameter("T", f.t), parameter("U", f.u)],
        vec![variant("Left", f.t, 0), variant("Right", f.u, 1)],
    );
    let map = bind(&[("T", f.u64_id), ("U", f.boolean)]);
    let ctx = SubstTypesContext::new(&f.engines, &map);
    let (once, changed) = generic.subst_inner(&ctx);
    assert!(changed);
    let (twice, changed_again) = once.clone().subst_inner(&ctx);
    assert!(!changed_again);
    assert!(twice.eq(&once, &f.engines));
    assert_eq!(twice.variants[0].type_argument.type_id, f.u64_id);
    assert_eq!(twice.variants[1].type_argument.type_id, f.boolean);
}

#[test]
fn a_substitution_that_does_not_settle_goes_on_changing() {
    let f = fixture();
    let generic = option(&f);
    // `T` is replaced by `U`, which the same bindings replace in turn
    let map = bind(&[("T", f.u), ("U", f.u64_id)]);
    let ctx = SubstTypesContext::new(&f.engines, &map);
    let (once, changed) = generic.subst_inner(&ctx);
    assert!(changed);
    assert_eq!(once.variants[0].type_argument.type_id, f.u);
    let (twice, changed_again) = once.clone().subst_inner(&ctx);
    assert!(changed_again);
    assert_eq!(twice.variants[0].type_argument.type_id, f.u64_id);
    assert!(!twice.eq(&once, &f.engines));
}

#[test]
fn a_placeholder_that_is_no_parameter_can_be_bound() {
    let f = fixture();
    let open = decl("Open", vec![parameter("T", f.t)], vec![variant("A", f.u, 0)]);
    let map = bind(&[("U", f.u64_id)]);
    let ctx = SubstTypesContext::new(&f.engines, &map);
    let (bound, changed) = open.clone().subst_inner(&ctx);
    assert!(changed);
    assert_eq!(bound.variants[0].type_argument.type_id, f.u64_id);
    assert!(!bound.eq(&open, &f.engines));
}

#[test]
fn the_first_binding_of_a_name_counts() {
    let f = fixture();
    let map = bind(&[("T", f.u64_id), ("T", f.boolean)]);
    assert!(!map.is_empty());
    assert_eq!(map.find("T"), Some(f.u64_id));
    assert_eq!(map.find("U"), None);
    assert_eq!(map.find(""), None);
    let ctx = SubstTypesContext::new(&f.engines, &map);
    assert_eq!(ctx.find_match(f.t), Some(f.u64_id));
    assert_eq!(ctx.find_match(f.u), None);
    assert_eq!(ctx.find_match(f.unit), None);
    assert_eq!(ctx.find_match(TypeId(77)), None);
}

#[test]
fn substitution_reaches_bounds_and_defaults() {
    let f = fixture();
    let mut p = parameter("T", f.t);
    p.trait_constraints = vec![
        TraitConstraint { trait_name: ident("Eq"), type_arguments: vec![] },
        TraitConstraint { trait_name: ident("Into"), type_arguments: vec![argument(f.boolean), argument(f.u)] },
    ];
    p.default = Some(argument(f.u));
    let map = bind(&[("U", f.u64_id)]);
    let ctx = SubstTypesContext::new(&f.engines, &map);

    let mut only_bound = p.trait_constraints[1].clone();
    assert!(only_bound.subst_inner(&ctx));
    assert_eq!(only_bound.type_arguments[1].type_id, f.u64_id);
    let mut untouched = p.trait_constraints[0].clone();
    assert!(!untouched.subst_inner(&ctx));

    let generic = decl("E", vec![p], vec![variant("A", f.unit, 0)]);
    let (instance, changed) = generic.subst_inner(&ctx);
    assert!(changed);
    let q = &instance.type_parameters[0];
    assert_eq!(q.type_id, f.t);
    assert_eq!(q.trait_constraints.len(), 2);
    assert_eq!(q.trait_constraints[1].trait_name.as_str(), "Into");
    assert_eq!(q.trait_constraints[1].type_arguments[0].type_id, f.boolean);
    assert_eq!(q.trait_constraints[1].type_arguments[1].type_id, f.u64_id);
    assert_eq!(q.default.as_ref().unwrap().type_id, f.u64_id);
    // the parameter itself still stands for a placeholder
    assert!(!instance.is_concrete(&f.engines));
    let mut alone = q.clone();
    assert!(!alone.subst_inner(&ctx));
}

#[test]
fn substitution_in_a_list_of_arguments() {
    let f = fixture();
    let map = bind(&[("T", f.boolean)]);
    let ctx = SubstTypesContext::new(&f.engines, &map);
    let mut args = vec![argument(f.u), argument(f.t), argument(f.u64_id), argument(f.t)];
    assert!(subst_arguments(&mut args, &ctx));
    let ids: Vec<TypeId> = args.iter().map(|a| a.type_id).collect();
    assert_eq!(ids, vec![f.u, f.boolean, f.u64_id, f.boolean]);
    assert!(!subst_arguments(&mut args, &ctx));
    let mut none: Vec<TypeArgument> = Vec::new();
    assert!(!subst_arguments(&mut none, &ctx));
    let mut v = variant("A", f.t, 3);
    assert!(v.subst_inner(&ctx));
    assert_eq!((v.type_argument.type_id, v.tag), (f.boolean, 3));
    assert!(!v.subst_inner(&ctx));
}

#[test]
fn a_declaration_without_parameters_is_concrete() {
    let f = fixture();
    // the payload is a placeholder, but there is no parameter to ask
    let d = decl("Plain", vec![], vec![variant("A", f.t, 0)]);
    assert!(d.is_concrete(&f.engines));
    assert!(d.is_concrete(&TypeEngine::new()));
    assert!(MonomorphizeHelper::type_parameters(&d).is_empty());
}

#[test]
fn concreteness_looks_into_nested_arguments() {
    let mut f = fixture();
    let inner = node(&mut f.engines, TypeConstructor::Tuple, vec![f.u64_id, f.t]);
    let nested = node(&mut f.engines, TypeConstructor::Custom("Vec".to_string()), vec![inner]);
    let flat = node(&mut f.engines, TypeConstructor::Array(2), vec![f.u64_id]);
    assert!(!f.engines.is_concrete_type(f.t));
    assert!(!f.engines.is_concrete_type(inner));
    assert!(!f.engines.is_concrete_type(nested));
    assert!(f.engines.is_concrete_type(flat));
    assert!(f.engines.is_concrete_type(f.unit));
    assert!(argument(flat).is_concrete(&f.engines));
    assert!(!parameter("T", nested).is_concrete(&f.engines));
    let one_open = decl("E", vec![parameter("A", flat), parameter("B", nested)], vec![]);
    assert!(!one_open.is_concrete(&f.engines));
    let all_closed = decl("E", vec![parameter("A", flat), parameter("B", f.boolean)], vec![]);
    assert!(all_closed.is_concrete(&f.engines));
    let dangling = decl("E", vec![parameter("A", TypeId(500))], vec![]);
    assert!(!dangling.is_concrete(&f.engines));
}

#[test]
fn an_enum_answers_for_its_name_and_parameters() {
    let f = fixture();
    let d = option(&f);
    assert_eq!(MonomorphizeHelper::name(&d).as_str(), "Option");
    let parameters = MonomorphizeHelper::type_parameters(&d);
    assert_eq!(parameters.len(), 1);
    assert_eq!(parameters[0].name.as_str(), "T");
    assert!(!d.has_self_type_param());
}

#[test]
fn binding_a_constant_generic_of_an_enum_does_nothing() {
    let f = fixture();
    let mut d = option(&f);
    let before = d.clone();
    let mut handler = Handler::default();
    let value = TyExpression { return_type: f.u64_id, span: Span::dummy() };
    assert!(d.materialize_const_generics(&f.engines, &mut handler, "N", &value).is_ok());
    assert!(d.materialize_const_generics(&f.engines, &mut handler, "T", &value).is_ok());
    assert!(d.eq(&before, &f.engines));
    assert!(!handler.has_errors());
}
