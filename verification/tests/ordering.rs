use std::cmp::Ordering;
use sway_types::Span;
use typed_enum::attributes::AttributesMap;
use typed_enum::comparison::{compare_str, compare_usize, same_str, Comparison};
use typed_enum::ident::Ident;
use typed_enum::call_path::{CallPath, Visibility};
use typed_enum::ty_enum::{TyEnumDecl, TyEnumVariant};
use typed_enum::type_argument::TypeArgument;
use typed_enum::type_engine::{TypeConstructor, TypeEngine, TypeId, TypeInfo};
use typed_enum::type_parameter::{TraitConstraint, TypeParameter, TypeParameterKind};

fn variant(name: &str, type_id: TypeId, tag: usize) -> TyEnumVariant {
    TyEnumVariant {
        name: Ident::new(name.to_string(), Span::dummy()),
        type_argument: TypeArgument { type_id, span: Span::dummy() },
        tag,
        span: Span::dummy(),
        attributes: AttributesMap { attributes: Vec::new() },
    }
}

fn node(engines: &mut TypeEngine, constructor: TypeConstructor, args: Vec<TypeId>) -> TypeId {
    engines.insert(TypeInfo { constructor, type_arguments: args }).unwrap()
}

fn as_std(c: Comparison) -> Ordering {
    c.into_standard()
}

#[test]
fn strings_are_ordered_as_std_orders_them() {
    let samples = ["", "a", "A", "ab", "abc", "abd", "b", "Some", "None", "é", "e", "z", "日本", "日", "\u{10348}", "\u{ffff}"];
    for a in samples {
        for b in samples {
            assert_eq!(as_std(compare_str(a, b)), a.cmp(b), "{:?} against {:?}", a, b);
            assert_eq!(same_str(a, b), a == b);
        }
    }
    assert_eq!(compare_str("ab", "abc"), Comparison::Less);
    assert_eq!(compare_str("abd", "abc"), Comparison::Greater);
    assert_eq!(compare_str("abc", "abc"), Comparison::Equal);
    assert_eq!(compare_str("", ""), Comparison::Equal);
}

#[test]
fn integers_are_ordered_by_value() {
    assert_eq!(compare_usize(1, 2), Comparison::Less);
    assert_eq!(compare_usize(2, 2), Comparison::Equal);
    assert_eq!(compare_usize(usize::MAX, 0), Comparison::Greater);
    assert_eq!(Comparison::Less.into_standard(), Ordering::Less);
    assert_eq!(Comparison::Equal.into_standard(), Ordering::Equal);
    assert_eq!(Comparison::Greater.into_standard(), Ordering::Greater);
}

#[test]
fn types_are_ordered_by_constructor_then_arguments() {
    let mut engines = TypeEngine::new();
    let boolean = node(&mut engines, TypeConstructor::Boolean, vec![]);
    let u8_id = node(&mut engines, TypeConstructor::UnsignedInteger(8), vec![]);
    let u64_id = node(&mut engines, TypeConstructor::UnsignedInteger(64), vec![]);
    let t = node(&mut engines, TypeConstructor::Placeholder("T".to_string()), vec![]);
    let u = node(&mut engines, TypeConstructor::Placeholder("U".to_string()), vec![]);
    let unit = node(&mut engines, TypeConstructor::Tuple, vec![]);
    let single = node(&mut engines, TypeConstructor::Tuple, vec![boolean]);
    let pair = node(&mut engines, TypeConstructor::Tuple, vec![boolean, u8_id]);
    let other_pair = node(&mut engines, TypeConstructor::Tuple, vec![boolean, u64_id]);
    let array3 = node(&mut engines, TypeConstructor::Array(3), vec![u64_id]);
    let array4 = node(&mut engines, TypeConstructor::Array(4), vec![boolean]);
    let vec_id = node(&mut engines, TypeConstructor::Custom("Vec".to_string()), vec![boolean]);
    let map_id = node(&mut engines, TypeConstructor::Custom("Map".to_string()), vec![boolean]);
    let missing = TypeId(1000);
    // in ascending order
    let ascending = [missing, boolean, u8_id, u64_id, t, u, unit, single, pair, other_pair, array3, array4, map_id, vec_id];
    for (i, a) in ascending.iter().enumerate() {
        for (j, b) in ascending.iter().enumerate() {
            assert_eq!(as_std(engines.compare_types(*a, *b)), i.cmp(&j), "{:?} against {:?}", a, b);
        }
    }
    let again = node(&mut engines, TypeConstructor::Tuple, vec![boolean, u8_id]);
    assert_eq!(engines.compare_types(pair, again), Comparison::Equal);
    assert_eq!(engines.compare_types(TypeId(2000), missing), Comparison::Equal);
    assert_eq!(
        TypeConstructor::Custom("Map".to_string()).compare(&TypeConstructor::Custom("Vec".to_string())),
        Comparison::Less
    );
    assert_eq!(TypeConstructor::Array(2).compare(&TypeConstructor::Tuple), Comparison::Greater);
}

#[test]
fn variants_are_ordered_by_name_then_payload_then_tag() {
    let mut engines = TypeEngine::new();
    let boolean = node(&mut engines, TypeConstructor::Boolean, vec![]);
    let u64_id = node(&mut engines, TypeConstructor::UnsignedInteger(64), vec![]);
    let u64_again = node(&mut engines, TypeConstructor::UnsignedInteger(64), vec![]);
    // the name decides first, though payload and tag say otherwise
    assert_eq!(variant("A", u64_id, 9).cmp(&variant("B", boolean, 0), &engines), Ordering::Less);
    assert_eq!(variant("None", boolean, 0).cmp(&variant("Some", boolean, 0), &engines), Ordering::Less);
    assert_eq!(variant("b", boolean, 0).cmp(&variant("B", boolean, 0), &engines), Ordering::Greater);
    // then the payload, though the tag says otherwise
    assert_eq!(variant("A", boolean, 9).cmp(&variant("A", u64_id, 0), &engines), Ordering::Less);
    assert_eq!(variant("A", u64_id, 0).cmp(&variant("A", boolean, 9), &engines), Ordering::Greater);
    // then the tag; the number of the handle does not count
    assert_eq!(variant("A", u64_id, 1).cmp(&variant("A", u64_again, 2), &engines), Ordering::Less);
    assert_eq!(variant("A", u64_again, 2).cmp(&variant("A", u64_id, 1), &engines), Ordering::Greater);
    assert_eq!(variant("A", u64_id, 2).cmp(&variant("A", u64_again, 2), &engines), Ordering::Equal);
    assert_eq!(variant("A", u64_id, 2).compare(&variant("A", u64_again, 2), &engines), Comparison::Equal);
    assert!(variant("A", u64_id, 2).eq(&variant("A", u64_again, 2), &engines));
    assert_eq!(
        variant("A", u64_id, 0).type_argument.compare(&variant("B", boolean, 0).type_argument, &engines),
        Comparison::Greater
    );
}

#[test]
fn sorting_gives_one_order_whatever_the_order_before() {
    let mut engines = TypeEngine::new();
    let boolean = node(&mut engines, TypeConstructor::Boolean, vec![]);
    let u64_id = node(&mut engines, TypeConstructor::UnsignedInteger(64), vec![]);
    let u64_again = node(&mut engines, TypeConstructor::UnsignedInteger(64), vec![]);
    let list = vec![
        variant("Some", u64_id, 0),
        variant("None", boolean, 1),
        variant("Some", boolean, 2),
        variant("Some", u64_again, 3),
        variant("Err", u64_id, 4),
        variant("Some", u64_id, 5),
    ];
    let mut first = list.clone();
    first.reverse();
    let mut second = list.clone();
    second.rotate_left(2);
    second.swap(0, 3);
    let mut third = list;
    for sorted in [&mut first, &mut second, &mut third] {
        sorted.sort_by(|a, b| a.cmp(b, &engines));
    }
    let tags = |sorted: &Vec<TyEnumVariant>| sorted.iter().map(|v| v.tag).collect::<Vec<_>>();
    assert_eq!(tags(&first), vec![4, 1, 2, 0, 3, 5]);
    assert_eq!(tags(&second), vec![4, 1, 2, 0, 3, 5]);
    assert_eq!(tags(&third), vec![4, 1, 2, 0, 3, 5]);
    for i in 0..first.len() {
        assert!(first[i].eq(&second[i], &engines));
    }
}

fn named(name: &str) -> Ident {
    Ident::new(name.to_string(), Span::dummy())
}

fn parameter(name: &str, type_id: TypeId) -> TypeParameter {
    TypeParameter {
        name: named(name),
        kind: TypeParameterKind::Type,
        type_id,
        trait_constraints: Vec::new(),
        default: None,
    }
}

fn bound(name: &str, args: Vec<TypeId>) -> TraitConstraint {
    TraitConstraint {
        trait_name: named(name),
        type_arguments: args.into_iter().map(|type_id| TypeArgument { type_id, span: Span::dummy() }).collect(),
    }
}

fn path(prefixes: &[&str], suffix: &str, is_absolute: bool) -> CallPath {
    CallPath {
        prefixes: prefixes.iter().map(|p| named(p)).collect(),
        suffix: named(suffix),
        is_absolute,
    }
}

#[test]
fn paths_are_ordered_by_prefixes_then_name_then_root() {
    let ascending = [
        path(&[], "Z", false),
        path(&[], "Z", true),
        path(&["a"], "B", true),
        path(&["a"], "C", false),
        path(&["a", "b"], "A", false),
        path(&["b"], "A", false),
    ];
    for (i, a) in ascending.iter().enumerate() {
        for (j, b) in ascending.iter().enumerate() {
            assert_eq!(as_std(a.compare(b)), i.cmp(&j));
            assert_eq!(a.eq(b), i == j);
        }
    }
    assert_eq!(Visibility::Private.compare(&Visibility::Public), Comparison::Less);
    assert_eq!(Visibility::Public.compare(&Visibility::Public), Comparison::Equal);
    assert_eq!(Visibility::Public.compare(&Visibility::Private), Comparison::Greater);
}

#[test]
fn parameters_are_ordered_field_by_field() {
    let mut engines = TypeEngine::new();
    let boolean = node(&mut engines, TypeConstructor::Boolean, vec![]);
    let u64_id = node(&mut engines, TypeConstructor::UnsignedInteger(64), vec![]);
    let mut constant = parameter("B", boolean);
    constant.kind = TypeParameterKind::Const;
    let mut bounded = parameter("B", u64_id);
    bounded.trait_constraints = vec![bound("Eq", vec![])];
    let mut bounded_more = parameter("B", u64_id);
    bounded_more.trait_constraints = vec![bound("Eq", vec![]), bound("Into", vec![boolean])];
    let mut bounded_other = parameter("B", u64_id);
    bounded_other.trait_constraints = vec![bound("Eq", vec![boolean])];
    let mut with_default = parameter("B", u64_id);
    with_default.trait_constraints = vec![bound("Eq", vec![boolean])];
    with_default.default = Some(TypeArgument { type_id: boolean, span: Span::dummy() });
    let mut with_later_default = with_default.clone();
    with_later_default.default = Some(TypeArgument { type_id: u64_id, span: Span::dummy() });
    let ascending = [
        parameter("A", u64_id),
        parameter("B", boolean),
        parameter("B", u64_id),
        bounded,
        bounded_more,
        bounded_other,
        with_default,
        with_later_default,
        constant,
        parameter("C", boolean),
    ];
    for (i, a) in ascending.iter().enumerate() {
        for (j, b) in ascending.iter().enumerate() {
            assert_eq!(a.cmp(b, &engines), i.cmp(&j), "{} against {}", i, j);
            assert_eq!(a.eq(b, &engines), i == j);
        }
    }
    assert_eq!(bound("Eq", vec![boolean]).compare(&bound("Eq", vec![u64_id]), &engines), Comparison::Less);
    assert_eq!(bound("Ord", vec![]).compare(&bound("Eq", vec![u64_id]), &engines), Comparison::Greater);
    let arg = |type_id| TypeArgument { type_id, span: Span::dummy() };
    assert_eq!(arg(boolean).cmp(&arg(u64_id), &engines), Ordering::Less);
    assert_eq!(arg(u64_id).cmp(&arg(u64_id), &engines), Ordering::Equal);
}

#[test]
fn declarations_are_ordered_by_path_parameters_variants_visibility() {
    let mut engines = TypeEngine::new();
    let boolean = node(&mut engines, TypeConstructor::Boolean, vec![]);
    let u64_id = node(&mut engines, TypeConstructor::UnsignedInteger(64), vec![]);
    let u64_again = node(&mut engines, TypeConstructor::UnsignedInteger(64), vec![]);
    let build = |name: &str, parameters, variants, visibility| TyEnumDecl {
        call_path: path(&["m"], name, false),
        type_parameters: parameters,
        attributes: AttributesMap { attributes: Vec::new() },
        variants,
        span: Span::dummy(),
        visibility,
    };
    let ascending = [
        build("A", vec![], vec![], Visibility::Private),
        build("A", vec![], vec![], Visibility::Public),
        build("A", vec![], vec![variant("X", boolean, 0)], Visibility::Public),
        build("A", vec![], vec![variant("X", boolean, 0), variant("Y", boolean, 1)], Visibility::Private),
        build("A", vec![], vec![variant("X", u64_id, 0)], Visibility::Private),
        build("A", vec![parameter("T", boolean)], vec![], Visibility::Public),
        build("A", vec![parameter("T", boolean)], vec![variant("X", boolean, 0)], Visibility::Private),
        build("A", vec![parameter("T", u64_id)], vec![], Visibility::Private),
        build("B", vec![], vec![], Visibility::Private),
    ];
    for (i, a) in ascending.iter().enumerate() {
        for (j, b) in ascending.iter().enumerate() {
            assert_eq!(a.cmp(b, &engines), i.cmp(&j), "{} against {}", i, j);
            assert_eq!(as_std(a.compare(b, &engines)), i.cmp(&j));
            assert_eq!(a.eq(b, &engines), i == j);
        }
    }
    let one = build("A", vec![parameter("T", u64_id)], vec![variant("X", u64_again, 0)], Visibility::Public);
    let other = build("A", vec![parameter("T", u64_again)], vec![variant("X", u64_id, 0)], Visibility::Public);
    assert_eq!(one.cmp(&other, &engines), Ordering::Equal);
    assert!(one.eq(&other, &engines));
    assert_eq!(one.hash_value(&engines), other.hash_value(&engines));
}
