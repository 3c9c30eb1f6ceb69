use juniper_from_schema::attributes::{Attribute, Attributes, Ownership};
use juniper_from_schema::code::{
    Argument, FieldArg, FieldBody, FieldResolver, Param, Receiver, RustType, TypeKind,
};
use juniper_from_schema::error::GenError;
use juniper_from_schema::field::{
    argument_to_name_and_rust_type, arguments_to_names_and_rust_types,
    collect_data_for_field_gen, collect_data_for_fields, gen_field, gen_field_body,
    gen_field_type, gen_nullable_field_type, innermost_name, to_field_args_list, FieldArgument,
    FieldTokens, FieldTypeDestination,
};
use juniper_from_schema::literal::Literal;
use juniper_from_schema::nullable_type::NullableType;
use juniper_from_schema::schema::{Field, InputValue, Type, Value};

fn named(name: &str) -> Type {
    Type::NamedType(name.to_string())
}

fn list(inner: Type) -> Type {
    Type::ListType(Box::new(inner))
}

fn non_null(inner: Type) -> Type {
    Type::NonNullType(Box::new(inner))
}

fn path(name: &str) -> RustType {
    RustType::Named(name.to_string())
}

fn option(inner: RustType) -> RustType {
    RustType::Optional(Box::new(inner))
}

fn vec_of(inner: RustType) -> RustType {
    RustType::List(Box::new(inner))
}

fn reference(inner: RustType) -> RustType {
    RustType::Reference(Box::new(inner))
}

fn argument(name: &str, value_type: Type, default_value: Option<Value>) -> InputValue {
    InputValue {
        description: None,
        name: name.to_string(),
        value_type,
        default_value,
        directives: vec![],
    }
}

fn field(name: &str, field_type: Type) -> Field {
    Field {
        description: None,
        name: name.to_string(),
        arguments: vec![],
        field_type,
        directives: vec![],
    }
}

fn owned() -> FieldTypeDestination {
    FieldTypeDestination::Return(Attributes { list: vec![Attribute::Ownership(Ownership::Owned)] })
}

fn borrowed() -> FieldTypeDestination {
    FieldTypeDestination::Return(Attributes::default())
}

#[test]
fn normalized_types_resolve_layer_by_layer() {
    let t = NullableType::NullableType(Box::new(NullableType::ListType(Box::new(
        NullableType::NamedType("Int".to_string()),
    ))));
    assert_eq!(gen_nullable_field_type(&t), (option(vec_of(path("i32"))), TypeKind::Scalar));
    let t = NullableType::ListType(Box::new(NullableType::NamedType("Post".to_string())));
    assert_eq!(gen_nullable_field_type(&t), (vec_of(path("Post")), TypeKind::Type));
}

#[test]
fn argument_types() {
    assert_eq!(
        gen_field_type(&named("Int"), &FieldTypeDestination::Argument, false),
        Ok((option(path("i32")), TypeKind::Scalar))
    );
    assert_eq!(
        gen_field_type(&non_null(named("Int")), &FieldTypeDestination::Argument, false),
        Ok((path("i32"), TypeKind::Scalar))
    );
    assert_eq!(
        gen_field_type(&non_null(list(non_null(named("ID")))), &FieldTypeDestination::Argument, false),
        Ok((vec_of(path("juniper::ID")), TypeKind::Scalar))
    );
    assert_eq!(
        gen_field_type(&named("Status"), &FieldTypeDestination::Argument, false),
        Ok((option(path("Status")), TypeKind::Type))
    );
}

#[test]
fn a_default_takes_one_layer_of_nullability_off() {
    assert_eq!(
        gen_field_type(&named("Status"), &FieldTypeDestination::Argument, true),
        Ok((path("Status"), TypeKind::Type))
    );
    assert_eq!(
        gen_field_type(&list(named("Int")), &FieldTypeDestination::Argument, true),
        Ok((vec_of(option(path("i32"))), TypeKind::Scalar))
    );
}

#[test]
fn a_default_on_a_non_null_type_fails() {
    assert_eq!(
        gen_field_type(&non_null(named("Int")), &FieldTypeDestination::Argument, true),
        Err(GenError::DefaultOnNonNullable)
    );
    assert_eq!(
        gen_field_type(&non_null(named("Int")), &borrowed(), true),
        Err(GenError::DefaultOnNonNullable)
    );
}

#[test]
fn returned_types_are_borrowed_unless_owned() {
    assert_eq!(
        gen_field_type(&non_null(named("ID")), &borrowed(), false),
        Ok((reference(path("juniper::ID")), TypeKind::Scalar))
    );
    assert_eq!(
        gen_field_type(&non_null(named("ID")), &owned(), false),
        Ok((path("juniper::ID"), TypeKind::Scalar))
    );
    assert_eq!(
        gen_field_type(&non_null(list(non_null(named("Post")))), &borrowed(), false),
        Ok((reference(vec_of(path("Post"))), TypeKind::Type))
    );
    assert_eq!(
        gen_field_type(&named("String"), &owned(), false),
        Ok((option(path("String")), TypeKind::Scalar))
    );
    let explicit = FieldTypeDestination::Return(Attributes {
        list: vec![Attribute::Ownership(Ownership::Borrowed)],
    });
    assert_eq!(
        gen_field_type(&named("String"), &explicit, false),
        Ok((reference(option(path("String"))), TypeKind::Scalar))
    );
}

#[test]
fn the_innermost_name() {
    assert_eq!(innermost_name(&named("Post")), "Post");
    assert_eq!(innermost_name(&non_null(list(non_null(named("Post"))))), "Post");
    assert_eq!(innermost_name(&list(list(named("Int")))), "Int");
}

#[test]
fn an_argument_without_a_default() {
    let arg = InputValue {
        description: Some("How many.".to_string()),
        name: "pageSize".to_string(),
        value_type: non_null(named("Int")),
        default_value: None,
        directives: vec![],
    };
    assert_eq!(
        argument_to_name_and_rust_type(&arg),
        Ok(FieldArgument {
            name: "page_size".to_string(),
            macro_type: path("i32"),
            trait_type: path("i32"),
            default_value: None,
            description: Some("How many.".to_string()),
        })
    );
}

#[test]
fn an_argument_with_a_default() {
    let arg = argument("status", named("Status"), Some(Value::Enum("PUBLISHED".to_string())));
    assert_eq!(
        argument_to_name_and_rust_type(&arg),
        Ok(FieldArgument {
            name: "status".to_string(),
            macro_type: option(path("Status")),
            trait_type: path("Status"),
            default_value: Some(Literal::EnumFromName("PUBLISHED".to_string())),
            description: None,
        })
    );
}

#[test]
fn a_list_default() {
    let arg = argument(
        "ids",
        list(non_null(named("Int"))),
        Some(Value::List(vec![Value::Int(1), Value::Int(2), Value::Int(3)])),
    );
    assert_eq!(
        argument_to_name_and_rust_type(&arg),
        Ok(FieldArgument {
            name: "ids".to_string(),
            macro_type: option(vec_of(path("i32"))),
            trait_type: vec_of(path("i32")),
            default_value: Some(Literal::List(vec![
                Literal::Int(1),
                Literal::Int(2),
                Literal::Int(3)
            ])),
            description: None,
        })
    );
}

#[test]
fn a_null_default_fails_whatever_the_type() {
    for value_type in [
        named("Int"),
        non_null(named("Int")),
        list(named("Int")),
        non_null(list(non_null(named("Post")))),
        named("Status"),
    ] {
        let arg = argument("x", value_type, Some(Value::Null));
        assert_eq!(argument_to_name_and_rust_type(&arg), Err(GenError::NullDefault));
    }
}

#[test]
fn object_and_variable_defaults_fail() {
    let arg = argument("x", named("Filter"), Some(Value::Object));
    assert_eq!(argument_to_name_and_rust_type(&arg), Err(GenError::ObjectDefault));
    let arg = argument("x", named("Int"), Some(Value::Variable("n".to_string())));
    assert_eq!(argument_to_name_and_rust_type(&arg), Err(GenError::VariableDefault));
    let arg = argument("x", named("Int"), Some(Value::Int(1 << 31)));
    assert_eq!(argument_to_name_and_rust_type(&arg), Err(GenError::IntegerOutOfRange(1 << 31)));
}

#[test]
fn a_default_on_a_non_null_argument_fails() {
    let arg = argument("x", non_null(named("Int")), Some(Value::Int(1)));
    assert_eq!(argument_to_name_and_rust_type(&arg), Err(GenError::DefaultOnNonNullable));
}

#[test]
fn an_argument_with_directives_fails() {
    let mut arg = argument("x", named("Int"), Some(Value::Null));
    arg.directives = vec!["deprecated".to_string()];
    assert_eq!(argument_to_name_and_rust_type(&arg), Err(GenError::Directives));
}

#[test]
fn arguments_in_order_and_the_first_failure() {
    let args = vec![
        argument("first", named("Int"), None),
        argument("second", non_null(named("String")), None),
    ];
    let compiled = arguments_to_names_and_rust_types(&args).unwrap();
    assert_eq!(compiled.len(), 2);
    assert_eq!(compiled[0].name, "first");
    assert_eq!(compiled[1].name, "second");
    assert_eq!(compiled[1].macro_type, path("String"));
    let args = vec![
        argument("first", named("Int"), None),
        argument("second", named("Int"), Some(Value::Object)),
        argument("third", named("Int"), Some(Value::Null)),
    ];
    assert_eq!(arguments_to_names_and_rust_types(&args), Err(GenError::ObjectDefault));
    assert_eq!(arguments_to_names_and_rust_types(&vec![]), Ok(vec![]));
}

fn all_posts() -> Field {
    Field {
        description: Some("#[ownership(owned)]".to_string()),
        name: "allPosts".to_string(),
        arguments: vec![argument(
            "status",
            named("Status"),
            Some(Value::Enum("PUBLISHED".to_string())),
        )],
        field_type: non_null(list(non_null(named("Post")))),
        directives: vec![],
    }
}

fn all_posts_tokens() -> FieldTokens {
    FieldTokens {
        name: "allPosts".to_string(),
        macro_args: vec![Argument {
            description: None,
            name: "status".to_string(),
            rust_type: option(path("Status")),
        }],
        trait_args: vec![Argument {
            description: None,
            name: "status".to_string(),
            rust_type: path("Status"),
        }],
        field_type: vec_of(path("Post")),
        field_method: "field_all_posts".to_string(),
        params: vec![Param {
            name: "status".to_string(),
            default_value: Some(Literal::EnumFromName("PUBLISHED".to_string())),
        }],
        description: Some("#[ownership(owned)]".to_string()),
        type_kind: TypeKind::Type,
        inner_type: "Post".to_string(),
    }
}

#[test]
fn a_field_with_a_defaulted_argument() {
    assert_eq!(collect_data_for_field_gen(&all_posts()), Ok(all_posts_tokens()));
}

#[test]
fn a_scalar_field_is_borrowed_by_default() {
    let tokens = collect_data_for_field_gen(&field("id", non_null(named("ID")))).unwrap();
    assert_eq!(
        tokens,
        FieldTokens {
            name: "id".to_string(),
            macro_args: vec![],
            trait_args: vec![],
            field_type: reference(path("juniper::ID")),
            field_method: "field_id".to_string(),
            params: vec![],
            description: None,
            type_kind: TypeKind::Scalar,
            inner_type: "ID".to_string(),
        }
    );
}

#[test]
fn a_field_keeps_the_documentation_of_its_arguments() {
    let mut f = field("posts", named("Post"));
    f.arguments = vec![InputValue {
        description: Some("Only these.".to_string()),
        name: "onlyThese".to_string(),
        value_type: named("Int"),
        default_value: None,
        directives: vec![],
    }];
    let tokens = collect_data_for_field_gen(&f).unwrap();
    assert_eq!(
        tokens.macro_args,
        vec![Argument {
            description: Some("Only these.".to_string()),
            name: "only_these".to_string(),
            rust_type: option(path("i32")),
        }]
    );
    assert_eq!(
        tokens.trait_args,
        vec![Argument {
            description: None,
            name: "only_these".to_string(),
            rust_type: option(path("i32")),
        }]
    );
    assert_eq!(tokens.params, vec![Param { name: "only_these".to_string(), default_value: None }]);
}

#[test]
fn a_field_with_directives_fails() {
    let mut f = field("id", named("ID"));
    f.directives = vec!["deprecated".to_string()];
    assert_eq!(collect_data_for_field_gen(&f), Err(GenError::Directives));
}

#[test]
fn a_field_with_an_unknown_annotation_fails() {
    let mut f = field("id", named("ID"));
    f.description = Some("The id.\n#[ownership(bogus)]".to_string());
    assert_eq!(
        collect_data_for_field_gen(&f),
        Err(GenError::UnsupportedAttributeValue {
            key: "ownership".to_string(),
            value: "bogus".to_string()
        })
    );
}

#[test]
fn a_field_with_a_null_default_fails() {
    let mut f = field("id", named("ID"));
    f.arguments = vec![argument("a", named("Int"), None), argument("b", named("Int"), Some(Value::Null))];
    assert_eq!(collect_data_for_field_gen(&f), Err(GenError::NullDefault));
}

#[test]
fn fields_in_order_and_the_first_failure() {
    let fields = vec![field("id", non_null(named("ID"))), all_posts()];
    let compiled = collect_data_for_fields(&fields).unwrap();
    assert_eq!(compiled.len(), 2);
    assert_eq!(compiled[0].name, "id");
    assert_eq!(compiled[1], all_posts_tokens());
    let mut bad = field("bad", named("Int"));
    bad.directives = vec!["x".to_string()];
    let mut worse = field("worse", named("Int"));
    worse.description = Some("#[a(b)]".to_string());
    let fields = vec![field("id", non_null(named("ID"))), bad, worse];
    assert_eq!(collect_data_for_fields(&fields), Err(GenError::Directives));
}

#[test]
fn the_executor_comes_first() {
    assert_eq!(to_field_args_list(&vec![]), vec![FieldArg::Executor]);
    let status = Argument {
        description: None,
        name: "status".to_string(),
        rust_type: option(path("Status")),
    };
    let limit =
        Argument { description: None, name: "limit".to_string(), rust_type: path("i32") };
    assert_eq!(
        to_field_args_list(&vec![
            Argument {
                description: None,
                name: "status".to_string(),
                rust_type: option(path("Status")),
            },
            Argument { description: None, name: "limit".to_string(), rust_type: path("i32") },
        ]),
        vec![FieldArg::Executor, FieldArg::Declared(status), FieldArg::Declared(limit)]
    );
}

#[test]
fn the_body_of_a_field_of_a_schema_type_makes_a_trail() {
    let body = gen_field_body(&all_posts_tokens(), Receiver::SelfRef, "Query", "QueryFields");
    assert_eq!(
        body,
        FieldBody {
            receiver: Receiver::SelfRef,
            struct_name: "Query".to_string(),
            trait_name: "QueryFields".to_string(),
            field_method: "field_all_posts".to_string(),
            trail: Some("Post".to_string()),
            params: vec![Param {
                name: "status".to_string(),
                default_value: Some(Literal::EnumFromName("PUBLISHED".to_string())),
            }],
        }
    );
}

#[test]
fn the_body_of_a_scalar_field_makes_no_trail() {
    let tokens = collect_data_for_field_gen(&field("id", non_null(named("ID")))).unwrap();
    let body = gen_field_body(&tokens, Receiver::Inner, "Post", "PostFields");
    assert_eq!(body.trail, None);
    assert_eq!(body.receiver, Receiver::Inner);
    assert_eq!(body.field_method, "field_id");
    assert_eq!(body.params, vec![]);
}

#[test]
fn a_declared_field() {
    let resolver = gen_field(&all_posts_tokens(), "Query", "QueryFields", "juniper::FieldError");
    assert_eq!(
        resolver,
        FieldResolver {
            description: "#[ownership(owned)]".to_string(),
            name: "allPosts".to_string(),
            args: vec![
                FieldArg::Executor,
                FieldArg::Declared(Argument {
                    description: None,
                    name: "status".to_string(),
                    rust_type: option(path("Status")),
                }),
            ],
            return_type: vec_of(path("Post")),
            error_type: "juniper::FieldError".to_string(),
            body: gen_field_body(&all_posts_tokens(), Receiver::SelfRef, "Query", "QueryFields"),
        }
    );
    let tokens = collect_data_for_field_gen(&field("id", non_null(named("ID")))).unwrap();
    assert_eq!(gen_field(&tokens, "Post", "PostFields", "E").description, "");
}
