//! Fields and their arguments, compiled to the parts from which the
//! declarations of a type are put together.

use vstd::prelude::*;
use vstd::string::*;
use crate::attributes::{
    parse_attributes,
    text_attributes,
    ownership_of,
    Attribute,
    Attributes,
    Ownership,
};
use crate::code::{
    Argument,
    ArgumentView,
    Duplicate,
    FieldArg,
    FieldArgView,
    FieldBody,
    FieldBodyView,
    FieldResolver,
    FieldResolverView,
    Param,
    ParamView,
    Receiver,
    RustType,
    RustTypeView,
    TypeKind,
};
use crate::error::{GenError, GenErrorView, result_view};
use crate::literal::{quote_value, quote_value_spec, Literal, LiteralView};
use crate::names::{field_method_name, snake_case, to_field_method_name, to_snake_case};
use crate::nullable_type::{normalize, without_one_layer, NullableType, NullableTypeView};
use crate::scalars::{graphql_scalar_type_to_rust_type, scalar_rust_type};
use crate::schema::{Field, FieldView, InputValue, InputValueView, Type, TypeView};
use crate::schema::ValueView;
use crate::sequences::{
    lemma_try_map_error,
    lemma_try_map_fails,
    lemma_try_map_start,
    lemma_try_map_step,
    try_map,
};

verus! {

/// Where a resolved type is used.
#[derive(Debug, PartialEq, Eq)]
pub enum FieldTypeDestination {
    /// As the type of an argument.
    Argument,
    /// As the type that a field method returns, under the field's
    /// annotations.
    Return(Attributes),
}

/// The mathematical model of a [`FieldTypeDestination`].
pub ghost enum DestinationView {
    Argument,
    Return(Seq<Attribute>),
}

impl DeepView for FieldTypeDestination {
    type V = DestinationView;

    open spec fn deep_view(&self) -> DestinationView {
        match *self {
            FieldTypeDestination::Argument => DestinationView::Argument,
            FieldTypeDestination::Return(attributes) => DestinationView::Return(attributes@),
        }
    }
}

/// The target type of a normalized type, and the kind of the type it names:
/// a list becomes a sequence, a nullable type an optional one.
pub open spec fn nullable_field_type(t: NullableTypeView) -> (RustTypeView, TypeKind)
    decreases t,
{
    match t {
        NullableTypeView::NamedType(name) => scalar_rust_type(name),
        NullableTypeView::ListType(item) => {
            let resolved = nullable_field_type(*item);
            (RustTypeView::List(Box::new(resolved.0)), resolved.1)
        },
        NullableTypeView::NullableType(item) => {
            let resolved = nullable_field_type(*item);
            (RustTypeView::Optional(Box::new(resolved.0)), resolved.1)
        },
    }
}

/// The target type of a schema type at a destination, and its kind. With a
/// default value the type must be nullable, and loses its outermost nullable
/// marker; a returned type is a reference unless the annotations ask for an
/// owned value.
pub open spec fn resolved_field_type(
    t: TypeView,
    destination: DestinationView,
    has_default_value: bool,
) -> Result<(RustTypeView, TypeKind), GenErrorView> {
    let normalized = normalize(t);
    if has_default_value && !(normalized is NullableType) {
        Err(GenErrorView::DefaultOnNonNullable)
    } else {
        let unwrapped = if has_default_value {
            without_one_layer(normalized)
        } else {
            normalized
        };
        let resolved = nullable_field_type(unwrapped);
        match destination {
            DestinationView::Return(attributes) => match ownership_of(attributes) {
                Ownership::Owned => Ok(resolved),
                Ownership::Borrowed => Ok((RustTypeView::Reference(Box::new(resolved.0)), resolved.1)),
            },
            DestinationView::Argument => Ok(resolved),
        }
    }
}

/// The name of the type that a schema type is built around.
pub open spec fn inner_type_name(t: TypeView) -> Seq<char>
    decreases t,
{
    match t {
        TypeView::NamedType(name) => name,
        TypeView::ListType(inner) => inner_type_name(*inner),
        TypeView::NonNullType(inner) => inner_type_name(*inner),
    }
}

/// An argument, compiled: its name in snake case, its type where the field is
/// declared and where the field method takes it, and its default.
#[derive(Debug, PartialEq, Eq)]
pub struct FieldArgument {
    pub name: String,
    pub macro_type: RustType,
    pub trait_type: RustType,
    pub default_value: Option<Literal>,
    pub description: Option<String>,
}

/// The mathematical model of a [`FieldArgument`].
pub ghost struct FieldArgumentView {
    pub name: Seq<char>,
    pub macro_type: RustTypeView,
    pub trait_type: RustTypeView,
    pub default_value: Option<LiteralView>,
    pub description: Option<Seq<char>>,
}

impl DeepView for FieldArgument {
    type V = FieldArgumentView;

    open spec fn deep_view(&self) -> FieldArgumentView {
        FieldArgumentView {
            name: self.name@,
            macro_type: self.macro_type.deep_view(),
            trait_type: self.trait_type.deep_view(),
            default_value: self.default_value.deep_view(),
            description: self.description.deep_view(),
        }
    }
}

/// The literal expression of an argument's default, if it has one.
pub open spec fn default_literal(default_value: Option<ValueView>) -> Result<
    Option<LiteralView>,
    GenErrorView,
> {
    match default_value {
        None => Ok(None),
        Some(value) => match quote_value_spec(value) {
            Ok(literal) => Ok(Some(literal)),
            Err(error) => Err(error),
        },
    }
}

/// An argument, compiled. Where the field is declared the argument has its
/// schema type, so that a caller may leave a nullable one out; the field
/// method takes it without its outermost nullable marker where the schema
/// gives a default.
pub open spec fn field_argument(arg: InputValueView) -> Result<FieldArgumentView, GenErrorView> {
    if arg.directives.len() > 0 {
        Err(GenErrorView::Directives)
    } else {
        match default_literal(arg.default_value) {
            Err(error) => Err(error),
            Ok(default_value) => match resolved_field_type(
                arg.value_type,
                DestinationView::Argument,
                false,
            ) {
                Err(error) => Err(error),
                Ok(macro_type) => match resolved_field_type(
                    arg.value_type,
                    DestinationView::Argument,
                    default_value is Some,
                ) {
                    Err(error) => Err(error),
                    Ok(trait_type) => Ok(
                        FieldArgumentView {
                            name: snake_case(arg.name),
                            macro_type: macro_type.0,
                            trait_type: trait_type.0,
                            default_value,
                            description: arg.description,
                        },
                    ),
                },
            },
        }
    }
}

/// The arguments of a field, compiled in order.
pub open spec fn field_arguments(args: Seq<InputValueView>) -> Result<
    Seq<FieldArgumentView>,
    GenErrorView,
> {
    try_map(args, |arg: InputValueView| field_argument(arg))
}

/// The argument as the declaration of a field lists it.
pub open spec fn macro_arg(arg: FieldArgumentView) -> ArgumentView {
    ArgumentView { description: arg.description, name: arg.name, rust_type: arg.macro_type }
}

/// The argument as the field method takes it.
pub open spec fn trait_arg(arg: FieldArgumentView) -> ArgumentView {
    ArgumentView { description: None, name: arg.name, rust_type: arg.trait_type }
}

/// The argument as it is handed on to the field method.
pub open spec fn param(arg: FieldArgumentView) -> ParamView {
    ParamView { name: arg.name, default_value: arg.default_value }
}

/// A field, compiled to the parts that its declarations are made of.
#[derive(Debug, PartialEq, Eq)]
pub struct FieldTokens {
    pub name: String,
    pub macro_args: Vec<Argument>,
    pub trait_args: Vec<Argument>,
    pub field_type: RustType,
    pub field_method: String,
    pub params: Vec<Param>,
    pub description: Option<String>,
    pub type_kind: TypeKind,
    pub inner_type: String,
}

/// The mathematical model of a [`FieldTokens`].
pub ghost struct FieldTokensView {
    pub name: Seq<char>,
    pub macro_args: Seq<ArgumentView>,
    pub trait_args: Seq<ArgumentView>,
    pub field_type: RustTypeView,
    pub field_method: Seq<char>,
    pub params: Seq<ParamView>,
    pub description: Option<Seq<char>>,
    pub type_kind: TypeKind,
    pub inner_type: Seq<char>,
}

impl DeepView for FieldTokens {
    type V = FieldTokensView;

    open spec fn deep_view(&self) -> FieldTokensView {
        FieldTokensView {
            name: self.name@,
            macro_args: self.macro_args.deep_view(),
            trait_args: self.trait_args.deep_view(),
            field_type: self.field_type.deep_view(),
            field_method: self.field_method@,
            params: self.params.deep_view(),
            description: self.description.deep_view(),
            type_kind: self.type_kind,
            inner_type: self.inner_type@,
        }
    }
}

/// The annotations in the documentation of a field; none without
/// documentation.
pub open spec fn field_attributes(description: Option<Seq<char>>) -> Result<
    Seq<Attribute>,
    GenErrorView,
> {
    match description {
        Some(text) => text_attributes(text),
        None => Ok(Seq::empty()),
    }
}

/// A field, compiled.
pub open spec fn field_tokens(field: FieldView) -> Result<FieldTokensView, GenErrorView> {
    if field.directives.len() > 0 {
        Err(GenErrorView::Directives)
    } else {
        match field_attributes(field.description) {
            Err(error) => Err(error),
            Ok(attributes) => match resolved_field_type(
                field.field_type,
                DestinationView::Return(attributes),
                false,
            ) {
                Err(error) => Err(error),
                Ok(resolved) => match field_arguments(field.arguments) {
                    Err(error) => Err(error),
                    Ok(args) => Ok(
                        FieldTokensView {
                            name: field.name,
                            macro_args: args.map_values(|arg: FieldArgumentView| macro_arg(arg)),
                            trait_args: args.map_values(|arg: FieldArgumentView| trait_arg(arg)),
                            field_type: resolved.0,
                            field_method: field_method_name(field.name),
                            params: args.map_values(|arg: FieldArgumentView| param(arg)),
                            description: field.description,
                            type_kind: resolved.1,
                            inner_type: inner_type_name(field.field_type),
                        },
                    ),
                },
            },
        }
    }
}

/// The fields of a type, compiled in order.
pub open spec fn fields_tokens(fields: Seq<FieldView>) -> Result<Seq<FieldTokensView>, GenErrorView> {
    try_map(fields, |field: FieldView| field_tokens(field))
}

/// The argument list of a declared field: the executor, then the arguments.
pub open spec fn field_args_list(args: Seq<ArgumentView>) -> Seq<FieldArgView> {
    seq![FieldArgView::Executor] + args.map_values(|arg: ArgumentView| FieldArgView::Declared(arg))
}

/// The call that resolves a field on a receiver of the given type: with the
/// record of requested fields where the field resolves to a type of the
/// schema, and with each argument handed on.
pub open spec fn field_body(
    field: FieldTokensView,
    receiver: Receiver,
    struct_name: Seq<char>,
    trait_name: Seq<char>,
) -> FieldBodyView {
    FieldBodyView {
        receiver,
        struct_name,
        trait_name,
        field_method: field.field_method,
        trail: match field.type_kind {
            TypeKind::Scalar => None,
            TypeKind::Type => Some(field.inner_type),
        },
        params: field.params,
    }
}

/// The declaration of a field of an object type.
pub open spec fn field_resolver(
    field: FieldTokensView,
    struct_name: Seq<char>,
    trait_name: Seq<char>,
    error_type: Seq<char>,
) -> FieldResolverView {
    FieldResolverView {
        description: match field.description {
            Some(text) => text,
            None => Seq::empty(),
        },
        name: field.name,
        args: field_args_list(field.macro_args),
        return_type: field.field_type,
        error_type,
        body: field_body(field, Receiver::SelfRef, struct_name, trait_name),
    }
}

/// Resolves a normalized type to its target type and kind.
pub fn gen_nullable_field_type(field_type: &NullableType) -> (resolved: (RustType, TypeKind))
    ensures
        (resolved.0.deep_view(), resolved.1) == nullable_field_type(field_type.deep_view()),
    decreases field_type,
{
    match field_type {
        NullableType::NamedType(name) => graphql_scalar_type_to_rust_type(name.as_str()),
        NullableType::ListType(item_type) => {
            let (item_type, ty) = gen_nullable_field_type(item_type);
            (RustType::List(Box::new(item_type)), ty)
        },
        NullableType::NullableType(item_type) => {
            let (item_type, ty) = gen_nullable_field_type(item_type);
            (RustType::Optional(Box::new(item_type)), ty)
        },
    }
}

/// Resolves a schema type at a destination to its target type and kind.
pub fn gen_field_type(
    field_type: &Type,
    destination: &FieldTypeDestination,
    has_default_value: bool,
) -> (r: Result<(RustType, TypeKind), GenError>)
    ensures
        match r {
            Ok(resolved) => resolved_field_type(
                field_type.deep_view(),
                destination.deep_view(),
                has_default_value,
            ) == Ok::<_, GenErrorView>((resolved.0.deep_view(), resolved.1)),
            Err(error) => resolved_field_type(
                field_type.deep_view(),
                destination.deep_view(),
                has_default_value,
            ) == Err::<(RustTypeView, TypeKind), _>(error.deep_view()),
        },
{
    let field_type = NullableType::from_schema_type(field_type);
    if has_default_value && !field_type.is_nullable() {
        return Err(GenError::DefaultOnNonNullable);
    }
    let field_type = if has_default_value {
        field_type.remove_one_layer_of_nullability()
    } else {
        field_type
    };
    let (tokens, ty) = gen_nullable_field_type(&field_type);
    match destination {
        FieldTypeDestination::Return(attrs) => match attrs.ownership() {
            Ownership::Owned => Ok((tokens, ty)),
            Ownership::Borrowed => Ok((RustType::Reference(Box::new(tokens)), ty)),
        },
        FieldTypeDestination::Argument => Ok((tokens, ty)),
    }
}

/// Finds the name of the type that a schema type is built around.
pub fn innermost_name(schema_type: &Type) -> (name: String)
    ensures
        name@ == inner_type_name(schema_type.deep_view()),
    decreases schema_type,
{
    match schema_type {
        Type::NamedType(name) => name.clone(),
        Type::ListType(inner) => innermost_name(inner),
        Type::NonNullType(inner) => innermost_name(inner),
    }
}

/// Compiles an argument of a field, or a field of an input object.
pub fn argument_to_name_and_rust_type(arg: &InputValue) -> (r: Result<FieldArgument, GenError>)
    ensures
        result_view(r) == field_argument(arg.deep_view()),
{
    if arg.directives.len() > 0 {
        return Err(GenError::Directives);
    }
    let default_value = match &arg.default_value {
        None => None,
        Some(value) => match quote_value(value) {
            Ok(literal) => Some(literal),
            Err(error) => {
                return Err(error);
            },
        },
    };
    let arg_name = to_snake_case(arg.name.as_str());
    let macro_type = match gen_field_type(&arg.value_type, &FieldTypeDestination::Argument, false) {
        Ok(resolved) => resolved.0,
        Err(error) => {
            return Err(error);
        },
    };
    let trait_type = match gen_field_type(
        &arg.value_type,
        &FieldTypeDestination::Argument,
        default_value.is_some(),
    ) {
        Ok(resolved) => resolved.0,
        Err(error) => {
            return Err(error);
        },
    };
    Ok(
        FieldArgument {
            name: arg_name,
            macro_type,
            trait_type,
            default_value,
            description: arg.description.duplicate(),
        },
    )
}

/// Compiles the arguments of a field, in order.
pub fn arguments_to_names_and_rust_types(args: &Vec<InputValue>) -> (r: Result<
    Vec<FieldArgument>,
    GenError,
>)
    ensures
        result_view(r) == field_arguments(args.deep_view()),
{
    let mut compiled: Vec<FieldArgument> = Vec::new();
    let ghost all = args.deep_view();
    let ghost step = |arg: InputValueView| field_argument(arg);
    let mut i: usize = 0;
    proof {
        lemma_try_map_start(all, step);
        assert(compiled.deep_view() =~= Seq::<FieldArgumentView>::empty());
    }
    while i < args.len()
        invariant
            i <= args.len(),
            all == args.deep_view(),
            step == (|arg: InputValueView| field_argument(arg)),
            try_map(all.take(i as int), step) == Ok::<_, GenErrorView>(compiled.deep_view()),
        decreases args.len() - i,
    {
        let one = argument_to_name_and_rust_type(&args[i]);
        proof {
            lemma_try_map_step(all, step, i as int);
        }
        match one {
            Err(error) => {
                proof {
                    lemma_try_map_error(all, step, i as int + 1);
                }
                return Err(error);
            },
            Ok(argument) => {
                let ghost before = compiled.deep_view();
                compiled.push(argument);
                assert(compiled.deep_view() =~= before.push(argument.deep_view()));
            },
        }
        i += 1;
    }
    assert(all.take(i as int) == all);
    Ok(compiled)
}

/// Compiles a field of an object type or of an interface.
pub fn collect_data_for_field_gen(field: &Field) -> (r: Result<FieldTokens, GenError>)
    ensures
        result_view(r) == field_tokens(field.deep_view()),
{
    if field.directives.len() > 0 {
        return Err(GenError::Directives);
    }
    let name = field.name.clone();
    let inner_type = innermost_name(&field.field_type);
    let description = field.description.duplicate();
    let attributes = match &field.description {
        Some(text) => match parse_attributes(text.as_str()) {
            Ok(attributes) => attributes,
            Err(error) => {
                return Err(error);
            },
        },
        None => Attributes::default(),
    };
    let (field_type, type_kind) = match gen_field_type(
        &field.field_type,
        &FieldTypeDestination::Return(attributes),
        false,
    ) {
        Ok(resolved) => resolved,
        Err(error) => {
            return Err(error);
        },
    };
    let field_method = to_field_method_name(field.name.as_str());
    let args_data = match arguments_to_names_and_rust_types(&field.arguments) {
        Ok(args_data) => args_data,
        Err(error) => {
            return Err(error);
        },
    };
    let mut macro_args: Vec<Argument> = Vec::new();
    let mut trait_args: Vec<Argument> = Vec::new();
    let mut params: Vec<Param> = Vec::new();
    let mut i: usize = 0;
    while i < args_data.len()
        invariant
            i <= args_data.len(),
            macro_args.len() == i,
            trait_args.len() == i,
            params.len() == i,
            forall|j: int|
                0 <= j < i ==> macro_args@[j].deep_view() == macro_arg(args_data@[j].deep_view()),
            forall|j: int|
                0 <= j < i ==> trait_args@[j].deep_view() == trait_arg(args_data@[j].deep_view()),
            forall|j: int| 0 <= j < i ==> params@[j].deep_view() == param(args_data@[j].deep_view()),
        decreases args_data.len() - i,
    {
        let arg = &args_data[i];
        macro_args.push(
            Argument {
                description: arg.description.duplicate(),
                name: arg.name.clone(),
                rust_type: arg.macro_type.duplicate(),
            },
        );
        trait_args.push(
            Argument {
                description: None,
                name: arg.name.clone(),
                rust_type: arg.trait_type.duplicate(),
            },
        );
        params.push(Param { name: arg.name.clone(), default_value: arg.default_value.duplicate() });
        i += 1;
    }
    proof {
        let args = args_data.deep_view();
        assert(macro_args.deep_view() =~= args.map_values(|arg: FieldArgumentView| macro_arg(arg)));
        assert(trait_args.deep_view() =~= args.map_values(|arg: FieldArgumentView| trait_arg(arg)));
        assert(params.deep_view() =~= args.map_values(|arg: FieldArgumentView| param(arg)));
    }
    Ok(
        FieldTokens {
            name,
            macro_args,
            trait_args,
            field_type,
            field_method,
            params,
            description,
            type_kind,
            inner_type,
        },
    )
}

/// Compiles the fields of a type, in order.
pub fn collect_data_for_fields(fields: &Vec<Field>) -> (r: Result<Vec<FieldTokens>, GenError>)
    ensures
        result_view(r) == fields_tokens(fields.deep_view()),
{
    let mut compiled: Vec<FieldTokens> = Vec::new();
    let ghost all = fields.deep_view();
    let ghost step = |field: FieldView| field_tokens(field);
    let mut i: usize = 0;
    proof {
        lemma_try_map_start(all, step);
        assert(compiled.deep_view() =~= Seq::<FieldTokensView>::empty());
    }
    while i < fields.len()
        invariant
            i <= fields.len(),
            all == fields.deep_view(),
            step == (|field: FieldView| field_tokens(field)),
            try_map(all.take(i as int), step) == Ok::<_, GenErrorView>(compiled.deep_view()),
        decreases fields.len() - i,
    {
        let one = collect_data_for_field_gen(&fields[i]);
        proof {
            lemma_try_map_step(all, step, i as int);
        }
        match one {
            Err(error) => {
                proof {
                    lemma_try_map_error(all, step, i as int + 1);
                }
                return Err(error);
            },
            Ok(tokens) => {
                let ghost before = compiled.deep_view();
                compiled.push(tokens);
                assert(compiled.deep_view() =~= before.push(tokens.deep_view()));
            },
        }
        i += 1;
    }
    assert(all.take(i as int) == all);
    Ok(compiled)
}

/// Lists the arguments of a declared field: the executor, then the
/// arguments that the schema declares.
pub fn to_field_args_list(args: &Vec<Argument>) -> (all_args: Vec<FieldArg>)
    ensures
        all_args.deep_view() == field_args_list(args.deep_view()),
{
    let mut all_args: Vec<FieldArg> = Vec::new();
    all_args.push(FieldArg::Executor);
    let mut i: usize = 0;
    while i < args.len()
        invariant
            i <= args.len(),
            all_args.len() == i + 1,
            all_args@[0].deep_view() == FieldArgView::Executor,
            forall|j: int|
                0 <= j < i ==> all_args@[j + 1].deep_view() == FieldArgView::Declared(
                    args@[j].deep_view(),
                ),
        decreases args.len() - i,
    {
        all_args.push(FieldArg::Declared(args[i].duplicate()));
        i += 1;
    }
    assert(all_args.deep_view() =~= field_args_list(args.deep_view()));
    all_args
}

/// Writes the call that resolves a field on a receiver of the given type.
pub fn gen_field_body(
    field: &FieldTokens,
    receiver: Receiver,
    struct_name: &str,
    trait_name: &str,
) -> (body: FieldBody)
    ensures
        body.deep_view() == field_body(field.deep_view(), receiver, struct_name@, trait_name@),
{
    let trail = match field.type_kind {
        TypeKind::Scalar => None,
        TypeKind::Type => Some(field.inner_type.clone()),
    };
    FieldBody {
        receiver,
        struct_name: String::from_str(struct_name),
        trait_name: String::from_str(trait_name),
        field_method: field.field_method.clone(),
        trail,
        params: field.params.duplicate(),
    }
}

/// Declares a field of an object type.
pub fn gen_field(field: &FieldTokens, struct_name: &str, trait_name: &str, error_type: &str) -> (resolver:
    FieldResolver)
    ensures
        resolver.deep_view() == field_resolver(
            field.deep_view(),
            struct_name@,
            trait_name@,
            error_type@,
        ),
{
    let body = gen_field_body(field, Receiver::SelfRef, struct_name, trait_name);
    let all_args = to_field_args_list(&field.macro_args);
    let description = match &field.description {
        Some(text) => text.clone(),
        None => String::new(),
    };
    FieldResolver {
        description,
        name: field.name.clone(),
        args: all_args,
        return_type: field.field_type.duplicate(),
        error_type: String::from_str(error_type),
        body,
    }
}

/// An argument whose default is `null` is refused, whatever its type.
pub proof fn law_null_default_is_refused(arg: InputValueView)
    requires
        arg.default_value == Some(ValueView::Null),
    ensures
        field_argument(arg) is Err,
        arg.directives.len() == 0 ==> field_argument(arg) == Err::<FieldArgumentView, _>(
            GenErrorView::NullDefault,
        ),
{
}

/// A field with an argument whose default is `null` is refused.
pub proof fn law_null_default_fails_field(field: FieldView, at: int)
    requires
        0 <= at < field.arguments.len(),
        field.arguments[at].default_value == Some(ValueView::Null),
    ensures
        field_tokens(field) is Err,
{
    law_null_default_is_refused(field.arguments[at]);
    lemma_try_map_fails(field.arguments, |arg: InputValueView| field_argument(arg), at);
}

/// An argument with a default keeps its schema type where the field is
/// declared, and is taken without its outermost nullable marker, and so
/// already resolved, by the field method; it is handed on with the default
/// in place of a missing value.
pub proof fn law_default_is_substituted_at_dispatch(arg: InputValueView)
    requires
        field_argument(arg) is Ok,
        arg.default_value is Some,
    ensures
        ({
            let compiled = field_argument(arg)->Ok_0;
            &&& normalize(arg.value_type) is NullableType
            &&& compiled.macro_type == nullable_field_type(normalize(arg.value_type)).0
            &&& compiled.macro_type is Optional
            &&& compiled.trait_type == *compiled.macro_type->Optional_0
            &&& param(compiled).default_value == Some(
                quote_value_spec(arg.default_value->0)->Ok_0,
            )
        }),
{
}

} // verus!
