//! The compiler of definitions: for each definition of a schema, the
//! declarations that stand for it.

use vstd::prelude::*;
use vstd::string::*;
use crate::code::{
    Argument,
    ArgumentView,
    Declaration,
    DeclarationView,
    DispatchArm,
    DispatchArmView,
    DispatchField,
    DispatchFieldView,
    Duplicate,
    EnumVariant,
    EnumVariantView,
    FieldResolver,
    MatchArm,
    MatchArmView,
    MutationRoot,
    MutationRootView,
    Receiver,
    TraitMethod,
    TraitMethodView,
    TypeKind,
    UnionVariant,
    UnionVariantView,
};
use crate::error::{GenError, GenErrorView, result_view};
use crate::field::{
    arguments_to_names_and_rust_types,
    collect_data_for_fields,
    field_args_list,
    field_argument,
    field_arguments,
    field_body,
    field_resolver,
    field_tokens,
    fields_tokens,
    law_null_default_fails_field,
    law_null_default_is_refused,
    gen_field,
    gen_field_body,
    macro_arg,
    to_field_args_list,
    FieldArgumentView,
    FieldTokens,
    FieldTokensView,
};
use crate::names::{
    camel_case,
    enum_name,
    fields_trait_name,
    to_enum_name,
    trait_map_for_struct_name,
};
use crate::output::{
    distinct,
    distinct_names,
    emits,
    implementors_of,
    lemma_distinct,
    lemma_distinct_unchanged,
    lemma_registered_once,
    registry_wf,
    ImplementorsView,
    Output,
};
use crate::scalars::{graphql_scalar_type_to_rust_type, scalar_rust_type};
use crate::schema::{
    Definition,
    DefinitionView,
    Document,
    EnumType,
    EnumTypeView,
    EnumValue,
    EnumValueView,
    FieldView,
    InputObjectType,
    InputObjectTypeView,
    InputValueView,
    InterfaceType,
    InterfaceTypeView,
    ObjectType,
    ObjectTypeView,
    ScalarType,
    ScalarTypeView,
    SchemaDefinition,
    SchemaDefinitionView,
    TypeDefinition,
    TypeDefinitionView,
    UnionType,
    UnionTypeView,
    ValueView,
};
use crate::sequences::{
    lemma_try_map_error,
    lemma_try_map_fails,
    lemma_try_map_start,
    lemma_try_map_step,
    try_map,
};

verus! {

/// The declaration of the schema type. A schema with a subscription root or
/// with directives is not supported, and one without a query root is
/// refused; without a mutation root the placeholder stands in.
pub open spec fn schema_declarations(schema: SchemaDefinitionView) -> Result<
    Seq<DeclarationView>,
    GenErrorView,
> {
    if schema.subscription is Some {
        Err(GenErrorView::Subscriptions)
    } else if schema.directives.len() > 0 {
        Err(GenErrorView::Directives)
    } else {
        match schema.query {
            None => Err(GenErrorView::MissingQuery),
            Some(query) => Ok(
                seq![
                    DeclarationView::Schema {
                        query,
                        mutation: match schema.mutation {
                            Some(mutation) => MutationRootView::Type(mutation),
                            None => MutationRootView::EmptyMutation,
                        },
                    },
                ],
            ),
        }
    }
}

/// The declarations of a scalar: none for a scalar that resolves to a target
/// type of its own, a built-in or a reserved one, else the wrapper of a
/// string.
pub open spec fn scalar_declarations(scalar: ScalarTypeView) -> Result<
    Seq<DeclarationView>,
    GenErrorView,
> {
    if scalar.directives.len() > 0 {
        Err(GenErrorView::Directives)
    } else {
        match scalar_rust_type(scalar.name).1 {
            TypeKind::Scalar => Ok(Seq::empty()),
            TypeKind::Type => Ok(
                seq![DeclarationView::Scalar { name: scalar.name, description: scalar.description }],
            ),
        }
    }
}

/// The variant that stands for a value of an enum: named in camel case and
/// tagged with the schema name.
pub open spec fn enum_variant(value: EnumValueView) -> Result<EnumVariantView, GenErrorView> {
    if value.directives.len() > 0 {
        Err(GenErrorView::Directives)
    } else {
        Ok(
            EnumVariantView {
                graphql_name: value.name,
                name: enum_name(value.name),
                description: value.description,
            },
        )
    }
}

/// The declaration emitted for a value of an enum.
pub open spec fn enum_value_declarations(value: EnumValueView) -> Result<
    Seq<DeclarationView>,
    GenErrorView,
> {
    match enum_variant(value) {
        Ok(variant) => Ok(seq![DeclarationView::EnumVariant(variant)]),
        Err(error) => Err(error),
    }
}

/// The variants of an enum, in the order of its values.
pub open spec fn enum_variants(values: Seq<EnumValueView>) -> Result<
    Seq<EnumVariantView>,
    GenErrorView,
> {
    try_map(values, |value: EnumValueView| enum_variant(value))
}

/// The arm that finds the variant of a value by the value's schema name.
pub open spec fn match_arm(value: EnumValueView) -> MatchArmView {
    MatchArmView { graphql_name: value.name, variant: enum_name(value.name) }
}

/// The declarations of an enum: the enum with one variant for each value,
/// and the lookup of a variant by its schema name, with one arm for each
/// value.
pub open spec fn enum_declarations(enum_type: EnumTypeView) -> Result<
    Seq<DeclarationView>,
    GenErrorView,
> {
    if enum_type.directives.len() > 0 {
        Err(GenErrorView::Directives)
    } else {
        match enum_variants(enum_type.values) {
            Err(error) => Err(error),
            Ok(variants) => Ok(
                seq![
                    DeclarationView::Enum {
                        name: enum_type.name,
                        description: enum_type.description,
                        variants,
                    },
                    DeclarationView::EnumFromName {
                        name: enum_type.name,
                        arms: enum_type.values.map_values(|value: EnumValueView| match_arm(value)),
                    },
                ],
            ),
        }
    }
}

/// The fields of an input record, in the order of the schema. A field has
/// its schema type, whether or not it has a default.
pub open spec fn input_fields(fields: Seq<InputValueView>) -> Result<Seq<ArgumentView>, GenErrorView> {
    match field_arguments(fields) {
        Err(error) => Err(error),
        Ok(args) => Ok(args.map_values(|arg: FieldArgumentView| macro_arg(arg))),
    }
}

/// The declaration of an input object: a record with one field for each
/// input field.
pub open spec fn input_declarations(input: InputObjectTypeView) -> Result<
    Seq<DeclarationView>,
    GenErrorView,
> {
    if input.directives.len() > 0 {
        Err(GenErrorView::Directives)
    } else {
        match input_fields(input.fields) {
            Err(error) => Err(error),
            Ok(fields) => Ok(
                seq![
                    DeclarationView::InputObject {
                        name: input.name,
                        description: input.description,
                        fields,
                    },
                ],
            ),
        }
    }
}

/// Emits the trait through which an enum's variant is looked up by its
/// schema name.
pub fn gen_enum_from_name(out: &mut Output)
    ensures
        final(out).deep_view().tokens == old(out).deep_view().tokens.push(
            DeclarationView::EnumFromNameTrait,
        ),
        final(out).deep_view().interface_implementors == old(
            out,
        ).deep_view().interface_implementors,
{
    out.extend(Declaration::EnumFromNameTrait);
}

/// Compiles the schema definition.
pub fn gen_schema_def(schema_def: &SchemaDefinition, out: &mut Output) -> (r: Result<(), GenError>)
    ensures
        emits(
            old(out).deep_view(),
            final(out).deep_view(),
            r,
            schema_declarations(schema_def.deep_view()),
        ),
{
    if schema_def.subscription.is_some() {
        return Err(GenError::Subscriptions);
    }
    if schema_def.directives.len() > 0 {
        return Err(GenError::Directives);
    }
    let query = match &schema_def.query {
        Some(query) => query.clone(),
        None => {
            return Err(GenError::MissingQuery);
        },
    };
    let mutation = match &schema_def.mutation {
        Some(mutation) => MutationRoot::Type(mutation.clone()),
        None => MutationRoot::EmptyMutation,
    };
    let declaration = Declaration::Schema { query, mutation };
    out.extend(declaration);
    assert(final(out).deep_view().tokens =~= old(out).deep_view().tokens
        + seq![declaration.deep_view()]);
    Ok(())
}

/// Emits the wrapper of a string that stands for a custom scalar.
pub fn gen_scalar_type_with_data(name: &str, description: &Option<String>, out: &mut Output)
    ensures
        final(out).deep_view().tokens == old(out).deep_view().tokens.push(
            DeclarationView::Scalar { name: name@, description: description.deep_view() },
        ),
        final(out).deep_view().interface_implementors == old(
            out,
        ).deep_view().interface_implementors,
{
    out.extend(
        Declaration::Scalar { name: String::from_str(name), description: description.duplicate() },
    );
}

/// Compiles the definition of a scalar.
pub fn gen_scalar_type(scalar_type: &ScalarType, out: &mut Output) -> (r: Result<(), GenError>)
    ensures
        emits(
            old(out).deep_view(),
            final(out).deep_view(),
            r,
            scalar_declarations(scalar_type.deep_view()),
        ),
{
    if scalar_type.directives.len() > 0 {
        return Err(GenError::Directives);
    }
    match graphql_scalar_type_to_rust_type(scalar_type.name.as_str()).1 {
        TypeKind::Scalar => {
            assert(final(out).deep_view().tokens =~= old(out).deep_view().tokens + Seq::empty());
        },
        TypeKind::Type => {
            gen_scalar_type_with_data(scalar_type.name.as_str(), &scalar_type.description, out);
            assert(final(out).deep_view().tokens =~= old(out).deep_view().tokens
                + scalar_declarations(scalar_type.deep_view())->Ok_0);
        },
    }
    Ok(())
}

/// Compiles one value of an enum to its variant.
pub fn gen_enum_value(enum_value: &EnumValue, out: &mut Output) -> (r: Result<(), GenError>)
    ensures
        emits(
            old(out).deep_view(),
            final(out).deep_view(),
            r,
            enum_value_declarations(enum_value.deep_view()),
        ),
{
    if enum_value.directives.len() > 0 {
        return Err(GenError::Directives);
    }
    let name = to_enum_name(enum_value.name.as_str());
    let declaration = Declaration::EnumVariant(
        EnumVariant {
            graphql_name: enum_value.name.clone(),
            name,
            description: enum_value.description.duplicate(),
        },
    );
    out.extend(declaration);
    assert(final(out).deep_view().tokens =~= old(out).deep_view().tokens
        + seq![declaration.deep_view()]);
    Ok(())
}

/// The declarations that the values of an enum emit, one variant each.
pub open spec fn enum_values_declarations(values: Seq<EnumValueView>) -> Result<
    Seq<DeclarationView>,
    GenErrorView,
> {
    match enum_variants(values) {
        Err(error) => Err(error),
        Ok(variants) => Ok(
            variants.map_values(|variant: EnumVariantView| DeclarationView::EnumVariant(variant)),
        ),
    }
}

/// Compiles each value of an enum into an accumulator of its own, which
/// shares the registry of the given one, and hands back what was emitted.
pub fn gen_with(values: &Vec<EnumValue>, other: &Output) -> (r: Result<Vec<Declaration>, GenError>)
    ensures
        result_view(r) == enum_values_declarations(values.deep_view()),
{
    let mut acc = other.clone_without_tokens();
    let ghost all = values.deep_view();
    let ghost step = |value: EnumValueView| enum_variant(value);
    let ghost mut done: Seq<EnumVariantView> = Seq::empty();
    let mut i: usize = 0;
    proof {
        lemma_try_map_start(all, step);
        assert(acc.deep_view().tokens =~= done.map_values(
            |variant: EnumVariantView| DeclarationView::EnumVariant(variant),
        ));
    }
    while i < values.len()
        invariant
            i <= values.len(),
            all == values.deep_view(),
            step == (|value: EnumValueView| enum_variant(value)),
            try_map(all.take(i as int), step) == Ok::<_, GenErrorView>(done),
            acc.deep_view().tokens == done.map_values(
                |variant: EnumVariantView| DeclarationView::EnumVariant(variant),
            ),
        decreases values.len() - i,
    {
        let one = gen_enum_value(&values[i], &mut acc);
        proof {
            lemma_try_map_step(all, step, i as int);
        }
        match one {
            Err(error) => {
                proof {
                    lemma_try_map_error(all, step, i as int + 1);
                }
                return Err(error);
            },
            Ok(()) => {
                proof {
                    let variant = enum_variant(all[i as int])->Ok_0;
                    assert(acc.deep_view().tokens =~= done.push(variant).map_values(
                        |variant: EnumVariantView| DeclarationView::EnumVariant(variant),
                    ));
                    done = done.push(variant);
                }
            },
        }
        i += 1;
    }
    assert(all.take(i as int) == all);
    Ok(acc.tokens())
}

/// Takes the variants out of declarations that are all variants.
fn variants_of(declarations: &Vec<Declaration>) -> (variants: Vec<EnumVariant>)
    requires
        forall|i: int| 0 <= i < declarations.len() ==> declarations@[i] is EnumVariant,
    ensures
        variants.len() == declarations.len(),
        forall|i: int|
            0 <= i < declarations.len() ==> declarations@[i].deep_view()
                == DeclarationView::EnumVariant(#[trigger] variants@[i].deep_view()),
{
    let mut variants: Vec<EnumVariant> = Vec::new();
    let mut i: usize = 0;
    while i < declarations.len()
        invariant
            i <= declarations.len(),
            variants.len() == i,
            forall|j: int| 0 <= j < declarations.len() ==> declarations@[j] is EnumVariant,
            forall|j: int|
                0 <= j < i ==> declarations@[j].deep_view() == DeclarationView::EnumVariant(
                    #[trigger] variants@[j].deep_view(),
                ),
        decreases declarations.len() - i,
    {
        match &declarations[i] {
            Declaration::EnumVariant(variant) => {
                variants.push(
                    EnumVariant {
                        graphql_name: variant.graphql_name.clone(),
                        name: variant.name.clone(),
                        description: variant.description.duplicate(),
                    },
                );
            },
            _ => {
                assert(false);
            },
        }
        i += 1;
    }
    variants
}

/// Compiles the definition of an enum.
pub fn gen_enum_type(enum_type: &EnumType, out: &mut Output) -> (r: Result<(), GenError>)
    ensures
        emits(
            old(out).deep_view(),
            final(out).deep_view(),
            r,
            enum_declarations(enum_type.deep_view()),
        ),
{
    if enum_type.directives.len() > 0 {
        return Err(GenError::Directives);
    }
    let mut trait_match_arms: Vec<MatchArm> = Vec::new();
    let mut i: usize = 0;
    while i < enum_type.values.len()
        invariant
            i <= enum_type.values.len(),
            trait_match_arms.len() == i,
            forall|j: int|
                0 <= j < i ==> trait_match_arms@[j].deep_view() == match_arm(
                    enum_type.values@[j].deep_view(),
                ),
        decreases enum_type.values.len() - i,
    {
        let value = &enum_type.values[i];
        trait_match_arms.push(
            MatchArm {
                graphql_name: value.name.clone(),
                variant: to_enum_name(value.name.as_str()),
            },
        );
        i += 1;
    }
    let values = match gen_with(&enum_type.values, out) {
        Ok(values) => values,
        Err(error) => {
            return Err(error);
        },
    };
    let ghost expected = enum_variants(enum_type.values.deep_view())->Ok_0;
    assert(values.deep_view() == expected.map_values(
        |variant: EnumVariantView| DeclarationView::EnumVariant(variant),
    ));
    assert forall|i: int| 0 <= i < values.len() implies values@[i] is EnumVariant by {
        assert(values.deep_view()[i] == DeclarationView::EnumVariant(expected[i]));
    }
    let variants = variants_of(&values);
    proof {
        assert forall|i: int| 0 <= i < variants.len() implies variants.deep_view()[i]
            == expected[i] by {
            assert(values.deep_view()[i] == DeclarationView::EnumVariant(expected[i]));
        }
        assert(variants.deep_view() =~= expected);
        assert(trait_match_arms.deep_view() =~= enum_type.values.deep_view().map_values(
            |value: EnumValueView| match_arm(value),
        ));
    }
    let declared = Declaration::Enum {
        name: enum_type.name.clone(),
        description: enum_type.description.duplicate(),
        variants,
    };
    let lookup = Declaration::EnumFromName { name: enum_type.name.clone(), arms: trait_match_arms };
    out.extend(declared);
    out.extend(lookup);
    assert(final(out).deep_view().tokens =~= old(out).deep_view().tokens
        + seq![declared.deep_view(), lookup.deep_view()]);
    Ok(())
}

/// Compiles the definition of an input object.
pub fn gen_input_def(input_type: &InputObjectType, out: &mut Output) -> (r: Result<(), GenError>)
    ensures
        emits(
            old(out).deep_view(),
            final(out).deep_view(),
            r,
            input_declarations(input_type.deep_view()),
        ),
{
    if input_type.directives.len() > 0 {
        return Err(GenError::Directives);
    }
    let args = match arguments_to_names_and_rust_types(&input_type.fields) {
        Ok(args) => args,
        Err(error) => {
            return Err(error);
        },
    };
    let mut fields: Vec<Argument> = Vec::new();
    let mut i: usize = 0;
    while i < args.len()
        invariant
            i <= args.len(),
            fields.len() == i,
            forall|j: int| 0 <= j < i ==> fields@[j].deep_view() == macro_arg(args@[j].deep_view()),
        decreases args.len() - i,
    {
        let arg = &args[i];
        fields.push(
            Argument {
                description: arg.description.duplicate(),
                name: arg.name.clone(),
                rust_type: arg.macro_type.duplicate(),
            },
        );
        i += 1;
    }
    assert(fields.deep_view() =~= args.deep_view().map_values(
        |arg: FieldArgumentView| macro_arg(arg),
    ));
    let declaration = Declaration::InputObject {
        name: input_type.name.clone(),
        description: input_type.description.duplicate(),
        fields,
    };
    out.extend(declaration);
    assert(final(out).deep_view().tokens =~= old(out).deep_view().tokens
        + seq![declaration.deep_view()]);
    Ok(())
}

/// The method of the fields trait that resolves a field. Where the field
/// resolves to a type of the schema, the method is told which fields of that
/// type the caller asked for.
pub open spec fn trait_method(field: FieldTokensView, error_type: Seq<char>) -> TraitMethodView {
    TraitMethodView {
        name: field.field_method,
        trail: match field.type_kind {
            TypeKind::Scalar => None,
            TypeKind::Type => Some(field.inner_type),
        },
        args: field.trait_args,
        return_type: field.field_type,
        error_type,
    }
}

/// The declarations of an object type: the trait of its field methods, and
/// the object with each field delegating to its method.
pub open spec fn object_declarations(object: ObjectTypeView, error_type: Seq<char>) -> Result<
    Seq<DeclarationView>,
    GenErrorView,
> {
    if object.directives.len() > 0 {
        Err(GenErrorView::Directives)
    } else {
        match fields_tokens(object.fields) {
            Err(error) => Err(error),
            Ok(fields) => Ok(
                seq![
                    DeclarationView::FieldsTrait {
                        name: fields_trait_name(object.name),
                        methods: fields.map_values(
                            |field: FieldTokensView| trait_method(field, error_type),
                        ),
                    },
                    DeclarationView::Object {
                        name: object.name,
                        description: object.description,
                        resolvers: fields.map_values(
                            |field: FieldTokensView|
                                field_resolver(
                                    field,
                                    object.name,
                                    fields_trait_name(object.name),
                                    error_type,
                                ),
                        ),
                        interfaces: object.implements_interfaces,
                    },
                ],
            ),
        }
    }
}

/// The variant of a tagged union that holds an implementor: named after the
/// implementor in camel case.
pub open spec fn union_variant(implementor: Seq<char>) -> UnionVariantView {
    UnionVariantView { name: camel_case(implementor), payload: implementor }
}

/// The variants of a tagged union, one for each implementor, in order.
pub open spec fn union_variants(implementors: Seq<Seq<char>>) -> Seq<UnionVariantView> {
    implementors.map_values(|implementor: Seq<char>| union_variant(implementor))
}

/// The tagged union over the given variants, and after it the conversion
/// into the union from each implementor, in order.
pub open spec fn tagged_union_declarations(
    name: Seq<char>,
    variants: Seq<UnionVariantView>,
) -> Seq<DeclarationView> {
    seq![DeclarationView::TaggedUnion { name, members: variants }] + variants.map_values(
        |variant: UnionVariantView| DeclarationView::Conversion { union_name: name, variant },
    )
}

/// The arm of a dispatched field for one variant: the call of the
/// implementor's own field method on the implementor held.
pub open spec fn dispatch_arm(field: FieldTokensView, variant: UnionVariantView) -> DispatchArmView {
    DispatchArmView {
        variant: variant.name,
        body: field_body(
            field,
            Receiver::Inner,
            variant.payload,
            fields_trait_name(variant.payload),
        ),
    }
}

/// The field of an interface, with one arm for each variant.
pub open spec fn dispatch_field(
    field: FieldTokensView,
    variants: Seq<UnionVariantView>,
    error_type: Seq<char>,
) -> DispatchFieldView {
    DispatchFieldView {
        description: field.description,
        name: field.name,
        args: field_args_list(field.macro_args),
        return_type: field.field_type,
        error_type,
        arms: variants.map_values(|variant: UnionVariantView| dispatch_arm(field, variant)),
    }
}

/// The text of a description; empty where there is none.
pub open spec fn documentation(description: Option<Seq<char>>) -> Seq<char> {
    match description {
        Some(text) => text,
        None => Seq::empty(),
    }
}

/// The declarations of an interface: the tagged union over its implementors,
/// each taken once, the conversions into it, and the interface with each
/// field dispatched on the variant held. An interface without registered
/// implementors is refused.
pub open spec fn interface_declarations(
    interface: InterfaceTypeView,
    registry: Seq<ImplementorsView>,
    error_type: Seq<char>,
) -> Result<Seq<DeclarationView>, GenErrorView> {
    if interface.directives.len() > 0 {
        Err(GenErrorView::Directives)
    } else {
        match implementors_of(registry, interface.name) {
            None => Err(GenErrorView::NoImplementors(interface.name)),
            Some(implementors) => if implementors.len() == 0 {
                Err(GenErrorView::NoImplementors(interface.name))
            } else {
                match fields_tokens(interface.fields) {
                    Err(error) => Err(error),
                    Ok(fields) => Ok(
                        tagged_union_declarations(
                            interface.name,
                            union_variants(distinct(implementors)),
                        ) + seq![
                            DeclarationView::Interface {
                                name: interface.name,
                                documentation: documentation(interface.description),
                                dispatchers: fields.map_values(
                                    |field: FieldTokensView|
                                        dispatch_field(
                                            field,
                                            union_variants(distinct(implementors)),
                                            error_type,
                                        ),
                                ),
                                instance_resolvers: union_variants(distinct(implementors)),
                            },
                        ],
                    ),
                }
            },
        }
    }
}

/// The declarations of a union: the tagged union over its members, each
/// taken once, the conversions into it, and the union itself. A union
/// without members is refused.
pub open spec fn union_declarations(union_type: UnionTypeView) -> Result<
    Seq<DeclarationView>,
    GenErrorView,
> {
    if union_type.directives.len() > 0 {
        Err(GenErrorView::Directives)
    } else if union_type.types.len() == 0 {
        Err(GenErrorView::NoImplementors(union_type.name))
    } else {
        Ok(
            tagged_union_declarations(union_type.name, union_variants(distinct(union_type.types)))
                + seq![
                DeclarationView::Union {
                    name: union_type.name,
                    documentation: documentation(union_type.description),
                    instance_resolvers: union_variants(distinct(union_type.types)),
                },
            ],
        )
    }
}

/// Declares the method of the fields trait that resolves a field.
pub fn gen_trait_method(field: &FieldTokens, error_type: &str) -> (method: TraitMethod)
    ensures
        method.deep_view() == trait_method(field.deep_view(), error_type@),
{
    let trail = match field.type_kind {
        TypeKind::Scalar => None,
        TypeKind::Type => Some(field.inner_type.clone()),
    };
    TraitMethod {
        name: field.field_method.clone(),
        trail,
        args: field.trait_args.duplicate(),
        return_type: field.field_type.duplicate(),
        error_type: String::from_str(error_type),
    }
}

/// Compiles the definition of an object type.
pub fn gen_obj_type(obj_type: &ObjectType, error_type: &str, out: &mut Output) -> (r: Result<
    (),
    GenError,
>)
    ensures
        emits(
            old(out).deep_view(),
            final(out).deep_view(),
            r,
            object_declarations(obj_type.deep_view(), error_type@),
        ),
{
    if obj_type.directives.len() > 0 {
        return Err(GenError::Directives);
    }
    let struct_name = obj_type.name.as_str();
    let trait_name = trait_map_for_struct_name(struct_name);
    let field_tokens = match collect_data_for_fields(&obj_type.fields) {
        Ok(field_tokens) => field_tokens,
        Err(error) => {
            return Err(error);
        },
    };
    let ghost compiled = field_tokens.deep_view();
    let mut trait_methods: Vec<TraitMethod> = Vec::new();
    let mut i: usize = 0;
    while i < field_tokens.len()
        invariant
            i <= field_tokens.len(),
            trait_methods.len() == i,
            forall|j: int|
                0 <= j < i ==> trait_methods@[j].deep_view() == trait_method(
                    field_tokens@[j].deep_view(),
                    error_type@,
                ),
        decreases field_tokens.len() - i,
    {
        trait_methods.push(gen_trait_method(&field_tokens[i], error_type));
        i += 1;
    }
    assert(trait_methods.deep_view() =~= compiled.map_values(
        |field: FieldTokensView| trait_method(field, error_type@),
    ));
    let mut fields: Vec<FieldResolver> = Vec::new();
    let mut i: usize = 0;
    while i < field_tokens.len()
        invariant
            i <= field_tokens.len(),
            fields.len() == i,
            forall|j: int|
                0 <= j < i ==> fields@[j].deep_view() == field_resolver(
                    field_tokens@[j].deep_view(),
                    struct_name@,
                    trait_name@,
                    error_type@,
                ),
        decreases field_tokens.len() - i,
    {
        fields.push(gen_field(&field_tokens[i], struct_name, trait_name.as_str(), error_type));
        i += 1;
    }
    assert(fields.deep_view() =~= compiled.map_values(
        |field: FieldTokensView| field_resolver(field, struct_name@, trait_name@, error_type@),
    ));
    let declared_trait = Declaration::FieldsTrait { name: trait_name, methods: trait_methods };
    let declared_object = Declaration::Object {
        name: obj_type.name.clone(),
        description: obj_type.description.duplicate(),
        resolvers: fields,
        interfaces: obj_type.implements_interfaces.duplicate(),
    };
    out.extend(declared_trait);
    out.extend(declared_object);
    assert(final(out).deep_view().tokens =~= old(out).deep_view().tokens
        + seq![declared_trait.deep_view(), declared_object.deep_view()]);
    Ok(())
}

/// Makes the variants of a tagged union, one for each implementor.
pub fn gen_union_variants(implementors: &Vec<String>) -> (variants: Vec<UnionVariant>)
    ensures
        variants.deep_view() == union_variants(implementors.deep_view()),
{
    let mut variants: Vec<UnionVariant> = Vec::new();
    let mut i: usize = 0;
    while i < implementors.len()
        invariant
            i <= implementors.len(),
            variants.len() == i,
            forall|j: int|
                0 <= j < i ==> variants@[j].deep_view() == union_variant(implementors@[j]@),
        decreases implementors.len() - i,
    {
        let implementor = &implementors[i];
        variants.push(
            UnionVariant { name: to_enum_name(implementor.as_str()), payload: implementor.clone() },
        );
        i += 1;
    }
    assert(variants.deep_view() =~= union_variants(implementors.deep_view()));
    variants
}

/// Emits the tagged union over the given variants, and the conversion into
/// it from each implementor.
pub fn gen_tagged_union(name: &str, variants: &Vec<UnionVariant>, out: &mut Output)
    ensures
        final(out).deep_view().tokens == old(out).deep_view().tokens + tagged_union_declarations(
            name@,
            variants.deep_view(),
        ),
        final(out).deep_view().interface_implementors == old(
            out,
        ).deep_view().interface_implementors,
{
    let ghost before = out.deep_view();
    let ghost members = variants.deep_view();
    let ghost conversions = members.map_values(
        |variant: UnionVariantView| DeclarationView::Conversion { union_name: name@, variant },
    );
    out.extend(Declaration::TaggedUnion { name: String::from_str(name), members: variants.duplicate() });
    let mut i: usize = 0;
    assert(out.deep_view().tokens =~= before.tokens + seq![
        DeclarationView::TaggedUnion { name: name@, members },
    ] + conversions.take(0));
    while i < variants.len()
        invariant
            i <= variants.len(),
            members == variants.deep_view(),
            conversions == members.map_values(
                |variant: UnionVariantView|
                    DeclarationView::Conversion { union_name: name@, variant },
            ),
            out.deep_view().interface_implementors == before.interface_implementors,
            out.deep_view().tokens == before.tokens + seq![
                DeclarationView::TaggedUnion { name: name@, members },
            ] + conversions.take(i as int),
        decreases variants.len() - i,
    {
        out.extend(
            Declaration::Conversion {
                union_name: String::from_str(name),
                variant: variants[i].duplicate(),
            },
        );
        proof {
            assert(conversions.take(i as int + 1) =~= conversions.take(i as int).push(
                conversions[i as int],
            ));
            assert(out.deep_view().tokens =~= before.tokens + seq![
                DeclarationView::TaggedUnion { name: name@, members },
            ] + conversions.take(i as int + 1));
        }
        i += 1;
    }
    assert(conversions.take(i as int) == conversions);
}

/// Declares a field of an interface, dispatched on the variant held.
pub fn gen_dispatch_field(field: &FieldTokens, variants: &Vec<UnionVariant>, error_type: &str) -> (dispatched:
    DispatchField)
    ensures
        dispatched.deep_view() == dispatch_field(
            field.deep_view(),
            variants.deep_view(),
            error_type@,
        ),
{
    let mut arms: Vec<DispatchArm> = Vec::new();
    let mut i: usize = 0;
    while i < variants.len()
        invariant
            i <= variants.len(),
            arms.len() == i,
            forall|j: int|
                0 <= j < i ==> arms@[j].deep_view() == dispatch_arm(
                    field.deep_view(),
                    variants@[j].deep_view(),
                ),
        decreases variants.len() - i,
    {
        let variant = &variants[i];
        let trait_name = trait_map_for_struct_name(variant.payload.as_str());
        let body = gen_field_body(
            field,
            Receiver::Inner,
            variant.payload.as_str(),
            trait_name.as_str(),
        );
        arms.push(DispatchArm { variant: variant.name.clone(), body });
        i += 1;
    }
    assert(arms.deep_view() =~= variants.deep_view().map_values(
        |variant: UnionVariantView| dispatch_arm(field.deep_view(), variant),
    ));
    DispatchField {
        description: field.description.duplicate(),
        name: field.name.clone(),
        args: to_field_args_list(&field.macro_args),
        return_type: field.field_type.duplicate(),
        error_type: String::from_str(error_type),
        arms,
    }
}

/// Copies the text of a description; the empty text where there is none.
pub fn description_text(description: &Option<String>) -> (text: String)
    ensures
        text@ == documentation(description.deep_view()),
{
    match description {
        Some(text) => text.clone(),
        None => String::new(),
    }
}

/// Compiles the definition of an interface.
pub fn gen_interface(interface: &InterfaceType, error_type: &str, out: &mut Output) -> (r: Result<
    (),
    GenError,
>)
    ensures
        emits(
            old(out).deep_view(),
            final(out).deep_view(),
            r,
            interface_declarations(
                interface.deep_view(),
                old(out).deep_view().interface_implementors,
                error_type@,
            ),
        ),
{
    if interface.directives.len() > 0 {
        return Err(GenError::Directives);
    }
    let implementors = match out.implementors(interface.name.as_str()) {
        Some(implementors) => implementors,
        None => {
            return Err(GenError::NoImplementors(interface.name.clone()));
        },
    };
    if implementors.len() == 0 {
        return Err(GenError::NoImplementors(interface.name.clone()));
    }
    let implementors = distinct_names(implementors);
    let variants = gen_union_variants(&implementors);
    let field_tokens = match collect_data_for_fields(&interface.fields) {
        Ok(field_tokens) => field_tokens,
        Err(error) => {
            return Err(error);
        },
    };
    let mut dispatchers: Vec<DispatchField> = Vec::new();
    let mut i: usize = 0;
    while i < field_tokens.len()
        invariant
            i <= field_tokens.len(),
            dispatchers.len() == i,
            forall|j: int|
                0 <= j < i ==> dispatchers@[j].deep_view() == dispatch_field(
                    field_tokens@[j].deep_view(),
                    variants.deep_view(),
                    error_type@,
                ),
        decreases field_tokens.len() - i,
    {
        dispatchers.push(gen_dispatch_field(&field_tokens[i], &variants, error_type));
        i += 1;
    }
    assert(dispatchers.deep_view() =~= field_tokens.deep_view().map_values(
        |field: FieldTokensView| dispatch_field(field, variants.deep_view(), error_type@),
    ));
    gen_tagged_union(interface.name.as_str(), &variants, out);
    let declared = Declaration::Interface {
        name: interface.name.clone(),
        documentation: description_text(&interface.description),
        dispatchers,
        instance_resolvers: variants,
    };
    out.extend(declared);
    assert(final(out).deep_view().tokens =~= old(out).deep_view().tokens
        + (tagged_union_declarations(interface.name@, variants.deep_view())
        + seq![declared.deep_view()]));
    Ok(())
}

/// Compiles the definition of a union.
pub fn gen_union(union_type: &UnionType, out: &mut Output) -> (r: Result<(), GenError>)
    ensures
        emits(
            old(out).deep_view(),
            final(out).deep_view(),
            r,
            union_declarations(union_type.deep_view()),
        ),
{
    if union_type.directives.len() > 0 {
        return Err(GenError::Directives);
    }
    if union_type.types.len() == 0 {
        return Err(GenError::NoImplementors(union_type.name.clone()));
    }
    let members = distinct_names(&union_type.types);
    let variants = gen_union_variants(&members);
    gen_tagged_union(union_type.name.as_str(), &variants, out);
    let declared = Declaration::Union {
        name: union_type.name.clone(),
        documentation: description_text(&union_type.description),
        instance_resolvers: variants,
    };
    out.extend(declared);
    assert(final(out).deep_view().tokens =~= old(out).deep_view().tokens
        + (tagged_union_declarations(union_type.name@, variants.deep_view())
        + seq![declared.deep_view()]));
    Ok(())
}

/// The declarations of a type definition, by its kind.
pub open spec fn type_declarations(
    type_def: TypeDefinitionView,
    registry: Seq<ImplementorsView>,
    error_type: Seq<char>,
) -> Result<Seq<DeclarationView>, GenErrorView> {
    match type_def {
        TypeDefinitionView::Enum(enum_type) => enum_declarations(enum_type),
        TypeDefinitionView::Object(object) => object_declarations(object, error_type),
        TypeDefinitionView::Scalar(scalar) => scalar_declarations(scalar),
        TypeDefinitionView::InputObject(input) => input_declarations(input),
        TypeDefinitionView::Interface(interface) => interface_declarations(
            interface,
            registry,
            error_type,
        ),
        TypeDefinitionView::Union(union_type) => union_declarations(union_type),
    }
}

/// The declarations of a definition. Definitions of directives and
/// extensions of types are not supported.
pub open spec fn definition_declarations(
    definition: DefinitionView,
    registry: Seq<ImplementorsView>,
    error_type: Seq<char>,
) -> Result<Seq<DeclarationView>, GenErrorView> {
    match definition {
        DefinitionView::DirectiveDefinition => Err(GenErrorView::Directives),
        DefinitionView::SchemaDefinition(schema) => schema_declarations(schema),
        DefinitionView::TypeDefinition(type_def) => type_declarations(type_def, registry, error_type),
        DefinitionView::TypeExtension => Err(GenErrorView::Extensions),
    }
}

/// The declarations of a document: those of its definitions, in the order
/// of the definitions; the error of the first definition that has none.
pub open spec fn document_declarations(
    definitions: Seq<DefinitionView>,
    registry: Seq<ImplementorsView>,
    error_type: Seq<char>,
) -> Result<Seq<DeclarationView>, GenErrorView>
    decreases definitions.len(),
{
    if definitions.len() == 0 {
        Ok(Seq::empty())
    } else {
        match document_declarations(definitions.drop_last(), registry, error_type) {
            Err(error) => Err(error),
            Ok(done) => match definition_declarations(definitions.last(), registry, error_type) {
                Err(error) => Err(error),
                Ok(more) => Ok(done + more),
            },
        }
    }
}

/// All that is generated for a document: the trait for the lookup of enum
/// variants, then the declarations of the document.
pub open spec fn juniper_code(
    definitions: Seq<DefinitionView>,
    registry: Seq<ImplementorsView>,
    error_type: Seq<char>,
) -> Result<Seq<DeclarationView>, GenErrorView> {
    match document_declarations(definitions, registry, error_type) {
        Err(error) => Err(error),
        Ok(declarations) => Ok(seq![DeclarationView::EnumFromNameTrait] + declarations),
    }
}

/// The declarations of one more definition follow those of the definitions
/// before it.
pub proof fn lemma_document_step(
    definitions: Seq<DefinitionView>,
    registry: Seq<ImplementorsView>,
    error_type: Seq<char>,
    i: int,
)
    requires
        0 <= i < definitions.len(),
    ensures
        document_declarations(definitions.take(i + 1), registry, error_type) == (
        match document_declarations(definitions.take(i), registry, error_type) {
            Err(error) => Err(error),
            Ok(done) => match definition_declarations(definitions[i], registry, error_type) {
                Err(error) => Err(error),
                Ok(more) => Ok(done + more),
            },
        }),
{
    assert(definitions.take(i + 1).drop_last() == definitions.take(i));
    assert(definitions.take(i + 1).last() == definitions[i]);
}

/// A definition without declarations among the first `n` leaves the whole
/// document without any, with the same error.
pub proof fn lemma_document_error(
    definitions: Seq<DefinitionView>,
    registry: Seq<ImplementorsView>,
    error_type: Seq<char>,
    n: int,
)
    requires
        0 <= n <= definitions.len(),
        document_declarations(definitions.take(n), registry, error_type) is Err,
    ensures
        document_declarations(definitions, registry, error_type) == document_declarations(
            definitions.take(n),
            registry,
            error_type,
        ),
    decreases definitions.len() - n,
{
    if n < definitions.len() {
        lemma_document_step(definitions, registry, error_type, n);
        lemma_document_error(definitions, registry, error_type, n + 1);
    } else {
        assert(definitions.take(n) == definitions);
    }
}

/// Compiles the definition of a type.
pub fn gen_type_def(type_def: &TypeDefinition, error_type: &str, out: &mut Output) -> (r: Result<
    (),
    GenError,
>)
    ensures
        emits(
            old(out).deep_view(),
            final(out).deep_view(),
            r,
            type_declarations(
                type_def.deep_view(),
                old(out).deep_view().interface_implementors,
                error_type@,
            ),
        ),
{
    match type_def {
        TypeDefinition::Enum(enum_type) => gen_enum_type(enum_type, out),
        TypeDefinition::Object(obj_type) => gen_obj_type(obj_type, error_type, out),
        TypeDefinition::Scalar(scalar_type) => gen_scalar_type(scalar_type, out),
        TypeDefinition::InputObject(input_type) => gen_input_def(input_type, out),
        TypeDefinition::Interface(interface_type) => gen_interface(interface_type, error_type, out),
        TypeDefinition::Union(union_type) => gen_union(union_type, out),
    }
}

/// Compiles one definition.
pub fn gen_def(def: &Definition, error_type: &str, out: &mut Output) -> (r: Result<(), GenError>)
    ensures
        emits(
            old(out).deep_view(),
            final(out).deep_view(),
            r,
            definition_declarations(
                def.deep_view(),
                old(out).deep_view().interface_implementors,
                error_type@,
            ),
        ),
{
    match def {
        Definition::DirectiveDefinition => Err(GenError::Directives),
        Definition::SchemaDefinition(schema_def) => gen_schema_def(schema_def, out),
        Definition::TypeDefinition(type_def) => gen_type_def(type_def, error_type, out),
        Definition::TypeExtension => Err(GenError::Extensions),
    }
}

/// Compiles the definitions of a document, in order. The declarations are
/// gathered apart and reach the accumulator only when every definition has
/// been compiled.
pub fn gen_doc(doc: &Document, error_type: &str, out: &mut Output) -> (r: Result<(), GenError>)
    ensures
        emits(
            old(out).deep_view(),
            final(out).deep_view(),
            r,
            document_declarations(
                doc.deep_view(),
                old(out).deep_view().interface_implementors,
                error_type@,
            ),
        ),
{
    let mut gathered = out.clone_without_tokens();
    let ghost all = doc.deep_view();
    let ghost registry = out.deep_view().interface_implementors;
    let mut i: usize = 0;
    assert(all.take(0).len() == 0);
    while i < doc.definitions.len()
        invariant
            i <= doc.definitions.len(),
            all == doc.deep_view(),
            *out == *old(out),
            registry == out.deep_view().interface_implementors,
            gathered.deep_view().interface_implementors == registry,
            document_declarations(all.take(i as int), registry, error_type@) == Ok::<
                _,
                GenErrorView,
            >(gathered.deep_view().tokens),
        decreases doc.definitions.len() - i,
    {
        let one = gen_def(&doc.definitions[i], error_type, &mut gathered);
        proof {
            lemma_document_step(all, registry, error_type@, i as int);
        }
        match one {
            Err(error) => {
                proof {
                    lemma_document_error(all, registry, error_type@, i as int + 1);
                }
                return Err(error);
            },
            Ok(()) => {},
        }
        i += 1;
    }
    assert(all.take(i as int) == all);
    out.extend_all(gathered.tokens());
    Ok(())
}

/// Compiles a schema document into declarations: first the trait for the
/// lookup of enum variants, then what each definition stands for, in the
/// order of the definitions. Results carry the given error type. Where a
/// definition cannot be compiled, nothing is emitted.
pub fn gen_juniper_code(doc: Document, error_type: String, out: &mut Output) -> (r: Result<
    (),
    GenError,
>)
    ensures
        emits(
            old(out).deep_view(),
            final(out).deep_view(),
            r,
            juniper_code(
                doc.deep_view(),
                old(out).deep_view().interface_implementors,
                error_type@,
            ),
        ),
{
    let mut gathered = out.clone_without_tokens();
    gen_enum_from_name(&mut gathered);
    match gen_doc(&doc, error_type.as_str(), &mut gathered) {
        Err(error) => {
            return Err(error);
        },
        Ok(()) => {},
    }
    let ghost declarations = document_declarations(
        doc.deep_view(),
        out.deep_view().interface_implementors,
        error_type@,
    )->Ok_0;
    assert(gathered.deep_view().tokens =~= seq![DeclarationView::EnumFromNameTrait]
        + declarations);
    out.extend_all(gathered.tokens());
    Ok(())
}

/// Where an interface compiles, implementors are registered for it, and the
/// tagged union comes first, with exactly one variant for each implementor,
/// in the order in which the registry first names them; after it comes, for
/// each implementor in turn, the conversion from it into the union; the
/// interface comes last. A well-formed registry names each implementor once,
/// so that there is a variant for each of its entries, in order.
pub proof fn law_interface_variants(
    interface: InterfaceTypeView,
    registry: Seq<ImplementorsView>,
    error_type: Seq<char>,
)
    requires
        interface_declarations(interface, registry, error_type) is Ok,
    ensures
        implementors_of(registry, interface.name) is Some,
        ({
            let registered = implementors_of(registry, interface.name)->0;
            let implementors = distinct(registered);
            let declarations = interface_declarations(interface, registry, error_type)->Ok_0;
            &&& registered.len() > 0
            &&& implementors.len() > 0
            &&& implementors.no_duplicates()
            &&& forall|name: Seq<char>| implementors.contains(name) <==> registered.contains(name)
            &&& registry_wf(registry) ==> implementors == registered
            &&& declarations.len() == implementors.len() + 2
            &&& declarations[0] is TaggedUnion
            &&& declarations[0]->TaggedUnion_name == interface.name
            &&& declarations[0]->members.len() == implementors.len()
            &&& forall|i: int|
                0 <= i < implementors.len() ==> (#[trigger] declarations[0]->members[i])
                    == union_variant(implementors[i])
            &&& forall|i: int|
                0 <= i < implementors.len() ==> #[trigger] declarations[i + 1]
                    == (DeclarationView::Conversion {
                    union_name: interface.name,
                    variant: union_variant(implementors[i]),
                })
            &&& declarations.last() is Interface
        }),
{
    let registered = implementors_of(registry, interface.name)->0;
    lemma_distinct(registered);
    if registry_wf(registry) {
        lemma_registered_once(registry, interface.name);
        lemma_distinct_unchanged(registered);
    }
}

/// Where a union compiles, it has members, and the tagged union comes first,
/// with exactly one variant for each member, in the order in which the
/// schema first names them; after it comes, for each member in turn, the
/// conversion from it into the union; the union comes last.
pub proof fn law_union_variants(union_type: UnionTypeView)
    requires
        union_declarations(union_type) is Ok,
    ensures
        ({
            let members = distinct(union_type.types);
            let declarations = union_declarations(union_type)->Ok_0;
            &&& union_type.types.len() > 0
            &&& members.len() > 0
            &&& members.no_duplicates()
            &&& forall|name: Seq<char>| members.contains(name) <==> union_type.types.contains(name)
            &&& declarations.len() == members.len() + 2
            &&& declarations[0] is TaggedUnion
            &&& declarations[0]->TaggedUnion_name == union_type.name
            &&& declarations[0]->members.len() == members.len()
            &&& forall|i: int|
                0 <= i < members.len() ==> (#[trigger] declarations[0]->members[i])
                    == union_variant(members[i])
            &&& forall|i: int|
                0 <= i < members.len() ==> #[trigger] declarations[i + 1]
                    == (DeclarationView::Conversion {
                    union_name: union_type.name,
                    variant: union_variant(members[i]),
                })
            &&& declarations.last() is Union
        }),
{
    lemma_distinct(union_type.types);
}

/// An interface and a union compile whenever they carry no directives, have
/// an implementor or a member, and, for an interface, each field compiles.
pub proof fn law_interface_and_union_compile(
    interface: InterfaceTypeView,
    union_type: UnionTypeView,
    registry: Seq<ImplementorsView>,
    error_type: Seq<char>,
)
    ensures
        interface.directives.len() == 0 && implementors_of(registry, interface.name) is Some
            && implementors_of(registry, interface.name)->0.len() > 0 && fields_tokens(
            interface.fields,
        ) is Ok ==> interface_declarations(interface, registry, error_type) is Ok,
        union_type.directives.len() == 0 && union_type.types.len() > 0 ==> union_declarations(
            union_type,
        ) is Ok,
{
}

/// An interface for which no implementor is registered is refused; unless
/// it is refused for its directives, it is refused for the want of
/// implementors.
pub proof fn law_interface_without_implementors(
    interface: InterfaceTypeView,
    registry: Seq<ImplementorsView>,
    error_type: Seq<char>,
)
    requires
        implementors_of(registry, interface.name) is None || implementors_of(
            registry,
            interface.name,
        )->0.len() == 0,
    ensures
        interface_declarations(interface, registry, error_type) is Err,
        interface.directives.len() == 0 ==> interface_declarations(interface, registry, error_type)
            == Err::<Seq<DeclarationView>, _>(GenErrorView::NoImplementors(interface.name)),
{
}

/// A document with a definition that does not compile does not compile.
pub proof fn lemma_failed_definition_fails(
    definitions: Seq<DefinitionView>,
    registry: Seq<ImplementorsView>,
    error_type: Seq<char>,
    at: int,
)
    requires
        0 <= at < definitions.len(),
        definition_declarations(definitions[at], registry, error_type) is Err,
    ensures
        document_declarations(definitions, registry, error_type) is Err,
        juniper_code(definitions, registry, error_type) is Err,
    decreases definitions.len(),
{
    if at == definitions.len() - 1 {
        assert(definitions.last() == definitions[at]);
    } else {
        assert(definitions.drop_last()[at] == definitions[at]);
        lemma_failed_definition_fails(definitions.drop_last(), registry, error_type, at);
    }
}

/// The fields of a definition, if it defines an object type or an
/// interface.
pub open spec fn definition_fields(definition: DefinitionView) -> Seq<FieldView> {
    match definition {
        DefinitionView::TypeDefinition(TypeDefinitionView::Object(object)) => object.fields,
        DefinitionView::TypeDefinition(TypeDefinitionView::Interface(interface)) => interface.fields,
        _ => Seq::empty(),
    }
}

/// A document in which an argument of a field, of an object type or of an
/// interface, has the default `null` does not compile, whatever the type of
/// the argument.
pub proof fn law_null_default_fails(
    definitions: Seq<DefinitionView>,
    registry: Seq<ImplementorsView>,
    error_type: Seq<char>,
    definition: int,
    field: int,
    argument: int,
)
    requires
        0 <= definition < definitions.len(),
        0 <= field < definition_fields(definitions[definition]).len(),
        0 <= argument < definition_fields(definitions[definition])[field].arguments.len(),
        definition_fields(definitions[definition])[field].arguments[argument].default_value
            == Some(ValueView::Null),
    ensures
        juniper_code(definitions, registry, error_type) is Err,
{
    let fields = definition_fields(definitions[definition]);
    law_null_default_fails_field(fields[field], argument);
    lemma_try_map_fails(fields, |field: FieldView| field_tokens(field), field);
    lemma_failed_definition_fails(definitions, registry, error_type, definition);
}

/// A document in which a field of an input object has the default `null`
/// does not compile.
pub proof fn law_null_default_fails_input(
    definitions: Seq<DefinitionView>,
    registry: Seq<ImplementorsView>,
    error_type: Seq<char>,
    definition: int,
    field: int,
)
    requires
        0 <= definition < definitions.len(),
        definitions[definition] is TypeDefinition,
        definitions[definition]->TypeDefinition_0 is InputObject,
        0 <= field < definitions[definition]->TypeDefinition_0->InputObject_0.fields.len(),
        definitions[definition]->TypeDefinition_0->InputObject_0.fields[field].default_value
            == Some(ValueView::Null),
    ensures
        juniper_code(definitions, registry, error_type) is Err,
{
    let fields = definitions[definition]->TypeDefinition_0->InputObject_0.fields;
    law_null_default_is_refused(fields[field]);
    lemma_try_map_fails(fields, |arg: InputValueView| field_argument(arg), field);
    lemma_failed_definition_fails(definitions, registry, error_type, definition);
}

} // verus!
