//! The declarations that generation emits, as data.

use vstd::prelude::*;
use crate::literal::{Literal, LiteralView};

verus! {

/// Values that can be copied in depth, with the copy's model equal to the
/// original's.
pub trait Duplicate: DeepView + Sized {
    fn duplicate(&self) -> (copy: Self)
        ensures
            copy.deep_view() == self.deep_view(),
    ;
}

impl Duplicate for String {
    fn duplicate(&self) -> (copy: String) {
        self.clone()
    }
}

impl<T: Duplicate> Duplicate for Option<T> {
    fn duplicate(&self) -> (copy: Option<T>) {
        match self {
            Some(value) => Some(value.duplicate()),
            None => None,
        }
    }
}

impl<T: Duplicate> Duplicate for Vec<T> {
    fn duplicate(&self) -> (copy: Vec<T>) {
        let mut copy: Vec<T> = Vec::new();
        let mut i: usize = 0;
        while i < self.len()
            invariant
                i <= self.len(),
                copy.len() == i,
                forall|j: int| 0 <= j < i ==> copy@[j].deep_view() == self@[j].deep_view(),
            decreases self.len() - i,
        {
            copy.push(self[i].duplicate());
            i += 1;
        }
        assert(copy.deep_view() =~= self.deep_view());
        copy
    }
}

/// A type of the target language.
#[derive(Debug, PartialEq, Eq)]
pub enum RustType {
    /// A type written by its name or path.
    Named(String),
    /// A growable sequence of the inner type.
    List(Box<RustType>),
    /// The inner type, or nothing.
    Optional(Box<RustType>),
    /// A shared reference to the inner type.
    Reference(Box<RustType>),
}

/// The mathematical model of a [`RustType`].
pub ghost enum RustTypeView {
    Named(Seq<char>),
    List(Box<RustTypeView>),
    Optional(Box<RustTypeView>),
    Reference(Box<RustTypeView>),
}

/// The model of a target type.
pub open spec fn rust_type_view(t: RustType) -> RustTypeView
    decreases t,
{
    match t {
        RustType::Named(name) => RustTypeView::Named(name@),
        RustType::List(inner) => RustTypeView::List(Box::new(rust_type_view(*inner))),
        RustType::Optional(inner) => RustTypeView::Optional(Box::new(rust_type_view(*inner))),
        RustType::Reference(inner) => RustTypeView::Reference(Box::new(rust_type_view(*inner))),
    }
}

impl DeepView for RustType {
    type V = RustTypeView;

    open spec fn deep_view(&self) -> RustTypeView {
        rust_type_view(*self)
    }
}

impl Duplicate for RustType {
    fn duplicate(&self) -> (copy: RustType)
        decreases self,
    {
        match self {
            RustType::Named(name) => RustType::Named(name.clone()),
            RustType::List(inner) => RustType::List(Box::new(RustType::duplicate(&**inner))),
            RustType::Optional(inner) => RustType::Optional(Box::new(RustType::duplicate(&**inner))),
            RustType::Reference(inner) => RustType::Reference(
                Box::new(RustType::duplicate(&**inner)),
            ),
        }
    }
}

/// Copies a literal expression.
fn copy_literal(literal: &Literal) -> (copy: Literal)
    ensures
        copy.deep_view() == literal.deep_view(),
    decreases literal,
{
    match literal {
        Literal::Float(bits) => Literal::Float(*bits),
        Literal::Int(number) => Literal::Int(*number),
        Literal::String(text) => Literal::String(text.clone()),
        Literal::Boolean(b) => Literal::Boolean(*b),
        Literal::EnumFromName(name) => Literal::EnumFromName(name.clone()),
        Literal::List(items) => {
            let mut copy: Vec<Literal> = Vec::new();
            let mut i: usize = 0;
            while i < items.len()
                invariant
                    i <= items.len(),
                    copy.len() == i,
                    *literal is List,
                    literal->List_0 == *items,
                    forall|j: int| 0 <= j < i ==> copy@[j].deep_view() == items@[j].deep_view(),
                decreases items.len() - i,
            {
                let item = copy_literal(&items[i]);
                copy.push(item);
                i += 1;
            }
            let copied = Literal::List(copy);
            assert(copied.deep_view()->List_0 =~= literal.deep_view()->List_0);
            copied
        },
    }
}

impl Duplicate for Literal {
    fn duplicate(&self) -> (copy: Literal) {
        copy_literal(self)
    }
}

/// Whether a resolved type is a plain value or a type of the schema, which is
/// resolved with a record of the fields that the caller asked for.
#[derive(Debug, PartialEq, Eq, Structural, Clone, Copy)]
pub enum TypeKind {
    Scalar,
    Type,
}

/// A declared argument or record field: a name and its type.
#[derive(Debug, PartialEq, Eq)]
pub struct Argument {
    pub description: Option<String>,
    pub name: String,
    pub rust_type: RustType,
}

/// The mathematical model of an [`Argument`].
pub ghost struct ArgumentView {
    pub description: Option<Seq<char>>,
    pub name: Seq<char>,
    pub rust_type: RustTypeView,
}

impl DeepView for Argument {
    type V = ArgumentView;

    open spec fn deep_view(&self) -> ArgumentView {
        ArgumentView {
            description: self.description.deep_view(),
            name: self.name@,
            rust_type: self.rust_type.deep_view(),
        }
    }
}

impl Duplicate for Argument {
    fn duplicate(&self) -> (copy: Argument) {
        Argument {
            description: self.description.duplicate(),
            name: self.name.clone(),
            rust_type: self.rust_type.duplicate(),
        }
    }
}

/// An argument as it is handed on to a field method: the argument itself,
/// or, where the schema gives a default, the argument with the default in
/// place of a value that the caller left out.
#[derive(Debug, PartialEq, Eq)]
pub struct Param {
    pub name: String,
    pub default_value: Option<Literal>,
}

/// The mathematical model of a [`Param`].
pub ghost struct ParamView {
    pub name: Seq<char>,
    pub default_value: Option<LiteralView>,
}

impl DeepView for Param {
    type V = ParamView;

    open spec fn deep_view(&self) -> ParamView {
        ParamView { name: self.name@, default_value: self.default_value.deep_view() }
    }
}

impl Duplicate for Param {
    fn duplicate(&self) -> (copy: Param) {
        Param { name: self.name.clone(), default_value: self.default_value.duplicate() }
    }
}

/// One entry in the argument list of a declared field.
#[derive(Debug, PartialEq, Eq)]
pub enum FieldArg {
    /// The executor, which every field takes first.
    Executor,
    /// An argument that the schema declares.
    Declared(Argument),
}

/// The mathematical model of a [`FieldArg`].
pub ghost enum FieldArgView {
    Executor,
    Declared(ArgumentView),
}

impl DeepView for FieldArg {
    type V = FieldArgView;

    open spec fn deep_view(&self) -> FieldArgView {
        match *self {
            FieldArg::Executor => FieldArgView::Executor,
            FieldArg::Declared(argument) => FieldArgView::Declared(argument.deep_view()),
        }
    }
}

/// The value on which a field method is called.
#[derive(Debug, PartialEq, Eq, Structural, Clone, Copy)]
pub enum Receiver {
    /// The object itself.
    SelfRef,
    /// The implementor that a variant of a tagged union holds.
    Inner,
}

/// The call of a field method of a type through the trait that declares it.
#[derive(Debug, PartialEq, Eq)]
pub struct FieldBody {
    pub receiver: Receiver,
    pub struct_name: String,
    pub trait_name: String,
    pub field_method: String,
    /// For a field that resolves to a type of the schema, the type whose
    /// requested fields are recorded and handed to the method.
    pub trail: Option<String>,
    pub params: Vec<Param>,
}

/// The mathematical model of a [`FieldBody`].
pub ghost struct FieldBodyView {
    pub receiver: Receiver,
    pub struct_name: Seq<char>,
    pub trait_name: Seq<char>,
    pub field_method: Seq<char>,
    pub trail: Option<Seq<char>>,
    pub params: Seq<ParamView>,
}

impl DeepView for FieldBody {
    type V = FieldBodyView;

    open spec fn deep_view(&self) -> FieldBodyView {
        FieldBodyView {
            receiver: self.receiver,
            struct_name: self.struct_name@,
            trait_name: self.trait_name@,
            field_method: self.field_method@,
            trail: self.trail.deep_view(),
            params: self.params.deep_view(),
        }
    }
}

/// A method of the trait that an application implements for a type.
#[derive(Debug, PartialEq, Eq)]
pub struct TraitMethod {
    pub name: String,
    /// For a field that resolves to a type of the schema, the type whose
    /// requested fields the method is told.
    pub trail: Option<String>,
    pub args: Vec<Argument>,
    pub return_type: RustType,
    pub error_type: String,
}

/// The mathematical model of a [`TraitMethod`].
pub ghost struct TraitMethodView {
    pub name: Seq<char>,
    pub trail: Option<Seq<char>>,
    pub args: Seq<ArgumentView>,
    pub return_type: RustTypeView,
    pub error_type: Seq<char>,
}

impl DeepView for TraitMethod {
    type V = TraitMethodView;

    open spec fn deep_view(&self) -> TraitMethodView {
        TraitMethodView {
            name: self.name@,
            trail: self.trail.deep_view(),
            args: self.args.deep_view(),
            return_type: self.return_type.deep_view(),
            error_type: self.error_type@,
        }
    }
}

/// A field of an object type, wired to the method that resolves it.
#[derive(Debug, PartialEq, Eq)]
pub struct FieldResolver {
    pub description: String,
    pub name: String,
    pub args: Vec<FieldArg>,
    pub return_type: RustType,
    pub error_type: String,
    pub body: FieldBody,
}

/// The mathematical model of a [`FieldResolver`].
pub ghost struct FieldResolverView {
    pub description: Seq<char>,
    pub name: Seq<char>,
    pub args: Seq<FieldArgView>,
    pub return_type: RustTypeView,
    pub error_type: Seq<char>,
    pub body: FieldBodyView,
}

impl DeepView for FieldResolver {
    type V = FieldResolverView;

    open spec fn deep_view(&self) -> FieldResolverView {
        FieldResolverView {
            description: self.description@,
            name: self.name@,
            args: self.args.deep_view(),
            return_type: self.return_type.deep_view(),
            error_type: self.error_type@,
            body: self.body.deep_view(),
        }
    }
}

/// A variant of a generated enum, tagged with the schema name it stands for.
#[derive(Debug, PartialEq, Eq)]
pub struct EnumVariant {
    pub graphql_name: String,
    pub name: String,
    pub description: Option<String>,
}

/// The mathematical model of an [`EnumVariant`].
pub ghost struct EnumVariantView {
    pub graphql_name: Seq<char>,
    pub name: Seq<char>,
    pub description: Option<Seq<char>>,
}

impl DeepView for EnumVariant {
    type V = EnumVariantView;

    open spec fn deep_view(&self) -> EnumVariantView {
        EnumVariantView {
            graphql_name: self.graphql_name@,
            name: self.name@,
            description: self.description.deep_view(),
        }
    }
}

/// One arm of the lookup of a variant by its schema name.
#[derive(Debug, PartialEq, Eq)]
pub struct MatchArm {
    pub graphql_name: String,
    pub variant: String,
}

/// The mathematical model of a [`MatchArm`].
pub ghost struct MatchArmView {
    pub graphql_name: Seq<char>,
    pub variant: Seq<char>,
}

impl DeepView for MatchArm {
    type V = MatchArmView;

    open spec fn deep_view(&self) -> MatchArmView {
        MatchArmView { graphql_name: self.graphql_name@, variant: self.variant@ }
    }
}

/// A variant of a tagged union: its name, and the implementor it holds.
#[derive(Debug, PartialEq, Eq)]
pub struct UnionVariant {
    pub name: String,
    pub payload: String,
}

/// The mathematical model of a [`UnionVariant`].
pub ghost struct UnionVariantView {
    pub name: Seq<char>,
    pub payload: Seq<char>,
}

impl DeepView for UnionVariant {
    type V = UnionVariantView;

    open spec fn deep_view(&self) -> UnionVariantView {
        UnionVariantView { name: self.name@, payload: self.payload@ }
    }
}

impl Duplicate for UnionVariant {
    fn duplicate(&self) -> (copy: UnionVariant) {
        UnionVariant { name: self.name.clone(), payload: self.payload.clone() }
    }
}

/// One arm of the dispatch of an interface field: for the given variant, the
/// call of the implementor's own field method.
#[derive(Debug, PartialEq, Eq)]
pub struct DispatchArm {
    pub variant: String,
    pub body: FieldBody,
}

/// The mathematical model of a [`DispatchArm`].
pub ghost struct DispatchArmView {
    pub variant: Seq<char>,
    pub body: FieldBodyView,
}

impl DeepView for DispatchArm {
    type V = DispatchArmView;

    open spec fn deep_view(&self) -> DispatchArmView {
        DispatchArmView { variant: self.variant@, body: self.body.deep_view() }
    }
}

/// A field of an interface, dispatched on the variant that is held.
#[derive(Debug, PartialEq, Eq)]
pub struct DispatchField {
    pub description: Option<String>,
    pub name: String,
    pub args: Vec<FieldArg>,
    pub return_type: RustType,
    pub error_type: String,
    pub arms: Vec<DispatchArm>,
}

/// The mathematical model of a [`DispatchField`].
pub ghost struct DispatchFieldView {
    pub description: Option<Seq<char>>,
    pub name: Seq<char>,
    pub args: Seq<FieldArgView>,
    pub return_type: RustTypeView,
    pub error_type: Seq<char>,
    pub arms: Seq<DispatchArmView>,
}

impl DeepView for DispatchField {
    type V = DispatchFieldView;

    open spec fn deep_view(&self) -> DispatchFieldView {
        DispatchFieldView {
            description: self.description.deep_view(),
            name: self.name@,
            args: self.args.deep_view(),
            return_type: self.return_type.deep_view(),
            error_type: self.error_type@,
            arms: self.arms.deep_view(),
        }
    }
}

/// The mutation root of a schema.
#[derive(Debug, PartialEq, Eq)]
pub enum MutationRoot {
    /// The type that the schema names.
    Type(String),
    /// The placeholder for a schema without mutations.
    EmptyMutation,
}

/// The mathematical model of a [`MutationRoot`].
pub ghost enum MutationRootView {
    Type(Seq<char>),
    EmptyMutation,
}

impl DeepView for MutationRoot {
    type V = MutationRootView;

    open spec fn deep_view(&self) -> MutationRootView {
        match *self {
            MutationRoot::Type(name) => MutationRootView::Type(name@),
            MutationRoot::EmptyMutation => MutationRootView::EmptyMutation,
        }
    }
}

/// One emitted declaration.
#[derive(Debug, PartialEq, Eq)]
pub enum Declaration {
    /// The trait through which an enum's variant is looked up by its schema
    /// name.
    EnumFromNameTrait,
    /// The schema type: the root node over the query and mutation roots.
    Schema { query: String, mutation: MutationRoot },
    /// A record for an input object.
    InputObject { name: String, description: Option<String>, fields: Vec<Argument> },
    /// A single variant, as generated for one enum value.
    EnumVariant(EnumVariant),
    /// An enum with its variants.
    Enum { name: String, description: Option<String>, variants: Vec<EnumVariant> },
    /// The lookup of an enum's variant by its schema name; a name without an
    /// arm is an error where the lookup runs.
    EnumFromName { name: String, arms: Vec<MatchArm> },
    /// A custom scalar: a wrapper of one string, read from a string input
    /// value and written as its string.
    Scalar { name: String, description: Option<String> },
    /// The trait of field methods that an application implements for a type.
    FieldsTrait { name: String, methods: Vec<TraitMethod> },
    /// An object type: its fields, each delegating to its field method, and
    /// the interfaces it implements.
    Object {
        name: String,
        description: Option<String>,
        resolvers: Vec<FieldResolver>,
        interfaces: Vec<String>,
    },
    /// The closed union over the implementors of an interface or the members
    /// of a union.
    TaggedUnion { name: String, members: Vec<UnionVariant> },
    /// The conversion from an implementor into the tagged union.
    Conversion { union_name: String, variant: UnionVariant },
    /// An interface: its fields, each dispatched on the variant held, and the
    /// table that finds the implementor behind a value.
    Interface {
        name: String,
        documentation: String,
        dispatchers: Vec<DispatchField>,
        instance_resolvers: Vec<UnionVariant>,
    },
    /// A union: the table that finds the member behind a value.
    Union { name: String, documentation: String, instance_resolvers: Vec<UnionVariant> },
}

/// The mathematical model of a [`Declaration`].
pub ghost enum DeclarationView {
    EnumFromNameTrait,
    Schema { query: Seq<char>, mutation: MutationRootView },
    InputObject { name: Seq<char>, description: Option<Seq<char>>, fields: Seq<ArgumentView> },
    EnumVariant(EnumVariantView),
    Enum { name: Seq<char>, description: Option<Seq<char>>, variants: Seq<EnumVariantView> },
    EnumFromName { name: Seq<char>, arms: Seq<MatchArmView> },
    Scalar { name: Seq<char>, description: Option<Seq<char>> },
    FieldsTrait { name: Seq<char>, methods: Seq<TraitMethodView> },
    Object {
        name: Seq<char>,
        description: Option<Seq<char>>,
        resolvers: Seq<FieldResolverView>,
        interfaces: Seq<Seq<char>>,
    },
    TaggedUnion { name: Seq<char>, members: Seq<UnionVariantView> },
    Conversion { union_name: Seq<char>, variant: UnionVariantView },
    Interface {
        name: Seq<char>,
        documentation: Seq<char>,
        dispatchers: Seq<DispatchFieldView>,
        instance_resolvers: Seq<UnionVariantView>,
    },
    Union { name: Seq<char>, documentation: Seq<char>, instance_resolvers: Seq<UnionVariantView> },
}

impl DeepView for Declaration {
    type V = DeclarationView;

    open spec fn deep_view(&self) -> DeclarationView {
        match *self {
            Declaration::EnumFromNameTrait => DeclarationView::EnumFromNameTrait,
            Declaration::Schema { query, mutation } => DeclarationView::Schema {
                query: query@,
                mutation: mutation.deep_view(),
            },
            Declaration::InputObject { name, description, fields } => DeclarationView::InputObject {
                name: name@,
                description: description.deep_view(),
                fields: fields.deep_view(),
            },
            Declaration::EnumVariant(variant) => DeclarationView::EnumVariant(variant.deep_view()),
            Declaration::Enum { name, description, variants } => DeclarationView::Enum {
                name: name@,
                description: description.deep_view(),
                variants: variants.deep_view(),
            },
            Declaration::EnumFromName { name, arms } => DeclarationView::EnumFromName {
                name: name@,
                arms: arms.deep_view(),
            },
            Declaration::Scalar { name, description } => DeclarationView::Scalar {
                name: name@,
                description: description.deep_view(),
            },
            Declaration::FieldsTrait { name, methods } => DeclarationView::FieldsTrait {
                name: name@,
                methods: methods.deep_view(),
            },
            Declaration::Object { name, description, resolvers, interfaces } => {
                DeclarationView::Object {
                    name: name@,
                    description: description.deep_view(),
                    resolvers: resolvers.deep_view(),
                    interfaces: interfaces.deep_view(),
                }
            },
            Declaration::TaggedUnion { name, members } => DeclarationView::TaggedUnion {
                name: name@,
                members: members.deep_view(),
            },
            Declaration::Conversion { union_name, variant } => DeclarationView::Conversion {
                union_name: union_name@,
                variant: variant.deep_view(),
            },
            Declaration::Interface { name, documentation, dispatchers, instance_resolvers } => {
                DeclarationView::Interface {
                    name: name@,
                    documentation: documentation@,
                    dispatchers: dispatchers.deep_view(),
                    instance_resolvers: instance_resolvers.deep_view(),
                }
            },
            Declaration::Union { name, documentation, instance_resolvers } => DeclarationView::Union {
                name: name@,
                documentation: documentation@,
                instance_resolvers: instance_resolvers.deep_view(),
            },
        }
    }
}

} // verus!
