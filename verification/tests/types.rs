use juniper_from_schema::code::{Duplicate, RustType, TypeKind};
use juniper_from_schema::names::{to_enum_name, to_field_method_name, trait_map_for_struct_name};
use juniper_from_schema::nullable_type::NullableType;
use juniper_from_schema::scalars::graphql_scalar_type_to_rust_type;
use juniper_from_schema::schema::Type;

fn named(name: &str) -> Type {
    Type::NamedType(name.to_string())
}

fn list(inner: Type) -> Type {
    Type::ListType(Box::new(inner))
}

fn non_null(inner: Type) -> Type {
    Type::NonNullType(Box::new(inner))
}

fn n_named(name: &str) -> NullableType {
    NullableType::NamedType(name.to_string())
}

fn n_list(inner: NullableType) -> NullableType {
    NullableType::ListType(Box::new(inner))
}

fn nullable(inner: NullableType) -> NullableType {
    NullableType::NullableType(Box::new(inner))
}

#[test]
fn a_bare_name_is_nullable() {
    assert_eq!(NullableType::from_schema_type(&named("Int")), nullable(n_named("Int")));
}

#[test]
fn a_non_null_name_has_no_nullable_wrapper() {
    let normalized = NullableType::from_schema_type(&non_null(named("Int")));
    assert_eq!(normalized, n_named("Int"));
    assert!(!normalized.is_nullable());
}

#[test]
fn lists_are_normalized_at_every_level() {
    assert_eq!(
        NullableType::from_schema_type(&list(named("Int"))),
        nullable(n_list(nullable(n_named("Int"))))
    );
    assert_eq!(
        NullableType::from_schema_type(&non_null(list(non_null(named("Post"))))),
        n_list(n_named("Post"))
    );
    assert_eq!(
        NullableType::from_schema_type(&list(non_null(named("Post")))),
        nullable(n_list(n_named("Post")))
    );
    assert_eq!(
        NullableType::from_schema_type(&non_null(list(named("Post")))),
        n_list(nullable(n_named("Post")))
    );
    assert_eq!(
        NullableType::from_schema_type(&non_null(list(list(named("Int"))))),
        n_list(nullable(n_list(nullable(n_named("Int")))))
    );
}

#[test]
fn a_doubled_non_null_mark_counts_once() {
    assert_eq!(
        NullableType::from_schema_type(&non_null(non_null(named("Int")))),
        n_named("Int")
    );
}

#[test]
fn nullability_of_the_outermost_layer() {
    assert!(nullable(n_named("Int")).is_nullable());
    assert!(!n_named("Int").is_nullable());
    assert!(!n_list(nullable(n_named("Int"))).is_nullable());
}

#[test]
fn one_layer_of_nullability_comes_off() {
    assert_eq!(nullable(n_named("Int")).remove_one_layer_of_nullability(), n_named("Int"));
    assert_eq!(n_named("Int").remove_one_layer_of_nullability(), n_named("Int"));
    assert_eq!(
        nullable(nullable(n_named("Int"))).remove_one_layer_of_nullability(),
        nullable(n_named("Int"))
    );
    assert_eq!(
        nullable(n_list(nullable(n_named("Int")))).remove_one_layer_of_nullability(),
        n_list(nullable(n_named("Int")))
    );
}

#[test]
fn built_in_scalars() {
    let expect = |name: &str, native: &str| {
        assert_eq!(
            graphql_scalar_type_to_rust_type(name),
            (RustType::Named(native.to_string()), TypeKind::Scalar)
        );
    };
    expect("String", "String");
    expect("Float", "f64");
    expect("Int", "i32");
    expect("Boolean", "bool");
    expect("ID", "juniper::ID");
}

#[test]
fn reserved_scalars() {
    assert_eq!(
        graphql_scalar_type_to_rust_type("Date"),
        (RustType::Named("chrono::naive::NaiveDate".to_string()), TypeKind::Scalar)
    );
    assert_eq!(
        graphql_scalar_type_to_rust_type("DateTime"),
        (
            RustType::Named("chrono::DateTime<chrono::offset::Utc>".to_string()),
            TypeKind::Scalar
        )
    );
}

#[test]
fn any_other_name_is_a_type_of_the_schema() {
    for name in ["Post", "Status", "int", "string", "Url", ""] {
        assert_eq!(
            graphql_scalar_type_to_rust_type(name),
            (RustType::Named(name.to_string()), TypeKind::Type)
        );
    }
}

#[test]
fn variant_names_are_in_camel_case() {
    assert_eq!(to_enum_name("PUBLISHED"), "Published");
    assert_eq!(to_enum_name("NOT_YET_PUBLISHED"), "NotYetPublished");
    assert_eq!(to_enum_name("Post"), "Post");
    assert_eq!(to_enum_name("blog_post"), "BlogPost");
}

#[test]
fn method_names_are_in_snake_case() {
    assert_eq!(to_field_method_name("allPosts"), "field_all_posts");
    assert_eq!(to_field_method_name("id"), "field_id");
    assert_eq!(to_field_method_name("HTMLBody"), "field_html_body");
}

#[test]
fn trait_names() {
    assert_eq!(trait_map_for_struct_name("Query"), "QueryFields");
    assert_eq!(trait_map_for_struct_name(""), "Fields");
}

#[test]
fn copies_are_equal() {
    let t = RustType::List(Box::new(RustType::Optional(Box::new(RustType::Reference(
        Box::new(RustType::Named("Post".to_string())),
    )))));
    assert_eq!(t.duplicate(), t);
    let names = vec!["a".to_string(), "b".to_string()];
    assert_eq!(names.duplicate(), names);
    let none: Option<String> = None;
    assert_eq!(none.duplicate(), None);
    assert_eq!(Some("x".to_string()).duplicate(), Some("x".to_string()));
}
