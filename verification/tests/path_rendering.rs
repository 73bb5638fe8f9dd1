use typed_enum::path::{
    PathExpr, PathExprSegment, PathType, PathTypeSegment, QualifiedPathRoot, SegmentGenerics,
};

fn expr_segment(name: &str, generics: Option<&str>) -> PathExprSegment {
    PathExprSegment { name: name.to_string(), generics_opt: generics.map(|g| g.to_string()) }
}

fn type_segment(name: &str, generics: Option<(bool, &str)>) -> PathTypeSegment {
    PathTypeSegment {
        name: name.to_string(),
        generics_opt: generics
            .map(|(double_colon, args)| SegmentGenerics { double_colon, args: args.to_string() }),
    }
}

fn plain_type(names: &[&str]) -> PathType {
    PathType {
        root_opt: None,
        prefix: type_segment(names[0], None),
        suffix: names[1..].iter().map(|n| type_segment(n, None)).collect(),
    }
}

fn rendered_expr(path: &PathExpr) -> String {
    let mut out = String::new();
    path.format(&mut out);
    out
}

fn rendered_type(path: &PathType) -> String {
    let mut out = String::new();
    path.format(&mut out);
    out
}

#[test]
fn a_single_name_renders_as_itself() {
    let path = PathExpr { root_opt: None, prefix: expr_segment("foo", None), suffix: vec![] };
    assert_eq!(rendered_expr(&path), "foo");
    assert_eq!(rendered_type(&plain_type(&["u64"])), "u64");
}

#[test]
fn segments_are_joined_by_double_colons() {
    let path = PathExpr {
        root_opt: None,
        prefix: expr_segment("std", None),
        suffix: vec![expr_segment("option", None), expr_segment("Option", None), expr_segment("Some", None)],
    };
    assert_eq!(rendered_expr(&path), "std::option::Option::Some");
    assert_eq!(rendered_type(&plain_type(&["std", "vec", "Vec"])), "std::vec::Vec");
}

#[test]
fn generic_arguments_of_an_expression_follow_a_double_colon() {
    let path = PathExpr {
        root_opt: None,
        prefix: expr_segment("Vec", Some("<u64>")),
        suffix: vec![expr_segment("with_capacity", Some("<T, U>")), expr_segment("new", None)],
    };
    assert_eq!(rendered_expr(&path), "Vec::<u64>::with_capacity::<T, U>::new");
    let mut out = String::new();
    expr_segment("size_of", Some("<u8>")).format(&mut out);
    assert_eq!(out, "size_of::<u8>");
}

#[test]
fn generic_arguments_of_a_type_keep_the_double_colon_of_the_source() {
    let path = PathType {
        root_opt: None,
        prefix: type_segment("std", None),
        suffix: vec![type_segment("Option", Some((false, "<u64>"))), type_segment("Inner", Some((true, "<T>")))],
    };
    assert_eq!(rendered_type(&path), "std::Option<u64>::Inner::<T>");
    let mut out = String::from("let x: ");
    type_segment("Vec", Some((false, "<b256>"))).format(&mut out);
    assert_eq!(out, "let x: Vec<b256>");
}

#[test]
fn a_path_from_the_root_starts_with_a_double_colon() {
    let path = PathExpr { root_opt: Some(None), prefix: expr_segment("core", None), suffix: vec![expr_segment("ops", None)] };
    assert_eq!(rendered_expr(&path), "::core::ops");
    let mut ty = plain_type(&["core", "ops", "Add"]);
    ty.root_opt = Some(None);
    assert_eq!(rendered_type(&ty), "::core::ops::Add");
}

#[test]
fn a_qualified_root_is_written_in_angle_brackets() {
    let root = QualifiedPathRoot { ty: "Vec<u64>".to_string(), as_trait: Box::new(plain_type(&["std", "Default"])) };
    let mut out = String::new();
    root.format(&mut out);
    assert_eq!(out, "Vec<u64> as std::Default");
    let path = PathExpr {
        root_opt: Some(Some(root)),
        prefix: expr_segment("default", None),
        suffix: vec![],
    };
    assert_eq!(rendered_expr(&path), "<Vec<u64> as std::Default>::default");
}

#[test]
fn qualified_roots_nest() {
    let inner = PathType {
        root_opt: Some(Some(QualifiedPathRoot { ty: "T".to_string(), as_trait: Box::new(plain_type(&["Iterator"])) })),
        prefix: type_segment("Item", None),
        suffix: vec![],
    };
    let outer = PathType {
        root_opt: Some(Some(QualifiedPathRoot { ty: "U".to_string(), as_trait: Box::new(inner) })),
        prefix: type_segment("Output", Some((false, "<V>"))),
        suffix: vec![type_segment("Last", None)],
    };
    assert_eq!(rendered_type(&outer), "<U as <T as Iterator>::Item>::Output<V>::Last");
}

#[test]
fn rendering_appends_to_what_is_there() {
    let mut out = String::from("use ");
    plain_type(&["a", "b"]).format(&mut out);
    out.push_str(";");
    assert_eq!(out, "use a::b;");
}
