//! The schema definitions that the generator reads.

use vstd::prelude::*;

verus! {

/// A field or argument type as the schema writes it: nullable unless marked
/// non-null.
#[derive(Debug, PartialEq, Eq)]
pub enum Type {
    NamedType(String),
    ListType(Box<Type>),
    NonNullType(Box<Type>),
}

/// The mathematical model of a [`Type`].
pub ghost enum TypeView {
    NamedType(Seq<char>),
    ListType(Box<TypeView>),
    NonNullType(Box<TypeView>),
}

/// The model of a schema type.
pub open spec fn type_view(t: Type) -> TypeView
    decreases t,
{
    match t {
        Type::NamedType(name) => TypeView::NamedType(name@),
        Type::ListType(inner) => TypeView::ListType(Box::new(type_view(*inner))),
        Type::NonNullType(inner) => TypeView::NonNullType(Box::new(type_view(*inner))),
    }
}

impl DeepView for Type {
    type V = TypeView;

    open spec fn deep_view(&self) -> TypeView {
        type_view(*self)
    }
}

/// A literal value, as a schema writes the default of an argument.
#[derive(Debug, PartialEq, Eq)]
pub enum Value {
    Variable(String),
    Int(i64),
    /// A floating-point literal, held as the bits of its 64-bit encoding.
    Float(u64),
    String(String),
    Boolean(bool),
    Null,
    Enum(String),
    List(Vec<Value>),
    /// An object literal; its entries are never read.
    Object,
}

/// The mathematical model of a [`Value`].
pub ghost enum ValueView {
    Variable(Seq<char>),
    Int(int),
    Float(u64),
    String(Seq<char>),
    Boolean(bool),
    Null,
    Enum(Seq<char>),
    List(Seq<ValueView>),
    Object,
}

/// The model of a literal value.
pub open spec fn value_view(v: Value) -> ValueView
    decreases v,
{
    match v {
        Value::Variable(name) => ValueView::Variable(name@),
        Value::Int(number) => ValueView::Int(number as int),
        Value::Float(bits) => ValueView::Float(bits),
        Value::String(text) => ValueView::String(text@),
        Value::Boolean(b) => ValueView::Boolean(b),
        Value::Null => ValueView::Null,
        Value::Enum(name) => ValueView::Enum(name@),
        Value::List(items) => ValueView::List(
            Seq::new(
                items@.len(),
                |i: int|
                    if 0 <= i < items@.len() {
                        value_view(items@[i])
                    } else {
                        ValueView::Null
                    },
            ),
        ),
        Value::Object => ValueView::Object,
    }
}

impl DeepView for Value {
    type V = ValueView;

    open spec fn deep_view(&self) -> ValueView {
        value_view(*self)
    }
}

/// An argument of a field, or a field of an input object.
#[derive(Debug, PartialEq, Eq)]
pub struct InputValue {
    pub description: Option<String>,
    pub name: String,
    pub value_type: Type,
    pub default_value: Option<Value>,
    /// The names of the directives attached.
    pub directives: Vec<String>,
}

/// The mathematical model of an [`InputValue`].
pub ghost struct InputValueView {
    pub description: Option<Seq<char>>,
    pub name: Seq<char>,
    pub value_type: TypeView,
    pub default_value: Option<ValueView>,
    pub directives: Seq<Seq<char>>,
}

impl DeepView for InputValue {
    type V = InputValueView;

    open spec fn deep_view(&self) -> InputValueView {
        InputValueView {
            description: self.description.deep_view(),
            name: self.name@,
            value_type: self.value_type.deep_view(),
            default_value: self.default_value.deep_view(),
            directives: self.directives.deep_view(),
        }
    }
}

/// A field of an object type or of an interface.
#[derive(Debug, PartialEq, Eq)]
pub struct Field {
    pub description: Option<String>,
    pub name: String,
    pub arguments: Vec<InputValue>,
    pub field_type: Type,
    pub directives: Vec<String>,
}

/// The mathematical model of a [`Field`].
pub ghost struct FieldView {
    pub description: Option<Seq<char>>,
    pub name: Seq<char>,
    pub arguments: Seq<InputValueView>,
    pub field_type: TypeView,
    pub directives: Seq<Seq<char>>,
}

impl DeepView for Field {
    type V = FieldView;

    open spec fn deep_view(&self) -> FieldView {
        FieldView {
            description: self.description.deep_view(),
            name: self.name@,
            arguments: self.arguments.deep_view(),
            field_type: self.field_type.deep_view(),
            directives: self.directives.deep_view(),
        }
    }
}

/// The schema definition: the root types.
#[derive(Debug, PartialEq, Eq)]
pub struct SchemaDefinition {
    pub directives: Vec<String>,
    pub query: Option<String>,
    pub mutation: Option<String>,
    pub subscription: Option<String>,
}

/// The mathematical model of a [`SchemaDefinition`].
pub ghost struct SchemaDefinitionView {
    pub directives: Seq<Seq<char>>,
    pub query: Option<Seq<char>>,
    pub mutation: Option<Seq<char>>,
    pub subscription: Option<Seq<char>>,
}

impl DeepView for SchemaDefinition {
    type V = SchemaDefinitionView;

    open spec fn deep_view(&self) -> SchemaDefinitionView {
        SchemaDefinitionView {
            directives: self.directives.deep_view(),
            query: self.query.deep_view(),
            mutation: self.mutation.deep_view(),
            subscription: self.subscription.deep_view(),
        }
    }
}

/// The definition of a scalar.
#[derive(Debug, PartialEq, Eq)]
pub struct ScalarType {
    pub description: Option<String>,
    pub name: String,
    pub directives: Vec<String>,
}

/// The mathematical model of a [`ScalarType`].
pub ghost struct ScalarTypeView {
    pub description: Option<Seq<char>>,
    pub name: Seq<char>,
    pub directives: Seq<Seq<char>>,
}

impl DeepView for ScalarType {
    type V = ScalarTypeView;

    open spec fn deep_view(&self) -> ScalarTypeView {
        ScalarTypeView {
            description: self.description.deep_view(),
            name: self.name@,
            directives: self.directives.deep_view(),
        }
    }
}

/// The definition of an object type.
#[derive(Debug, PartialEq, Eq)]
pub struct ObjectType {
    pub description: Option<String>,
    pub name: String,
    pub implements_interfaces: Vec<String>,
    pub directives: Vec<String>,
    pub fields: Vec<Field>,
}

/// The mathematical model of an [`ObjectType`].
pub ghost struct ObjectTypeView {
    pub description: Option<Seq<char>>,
    pub name: Seq<char>,
    pub implements_interfaces: Seq<Seq<char>>,
    pub directives: Seq<Seq<char>>,
    pub fields: Seq<FieldView>,
}

impl DeepView for ObjectType {
    type V = ObjectTypeView;

    open spec fn deep_view(&self) -> ObjectTypeView {
        ObjectTypeView {
            description: self.description.deep_view(),
            name: self.name@,
            implements_interfaces: self.implements_interfaces.deep_view(),
            directives: self.directives.deep_view(),
            fields: self.fields.deep_view(),
        }
    }
}

/// The definition of an interface.
#[derive(Debug, PartialEq, Eq)]
pub struct InterfaceType {
    pub description: Option<String>,
    pub name: String,
    pub directives: Vec<String>,
    pub fields: Vec<Field>,
}

/// The mathematical model of an [`InterfaceType`].
pub ghost struct InterfaceTypeView {
    pub description: Option<Seq<char>>,
    pub name: Seq<char>,
    pub directives: Seq<Seq<char>>,
    pub fields: Seq<FieldView>,
}

impl DeepView for InterfaceType {
    type V = InterfaceTypeView;

    open spec fn deep_view(&self) -> InterfaceTypeView {
        InterfaceTypeView {
            description: self.description.deep_view(),
            name: self.name@,
            directives: self.directives.deep_view(),
            fields: self.fields.deep_view(),
        }
    }
}

/// The definition of a union.
#[derive(Debug, PartialEq, Eq)]
pub struct UnionType {
    pub description: Option<String>,
    pub name: String,
    pub directives: Vec<String>,
    /// The member types, in the order of the schema.
    pub types: Vec<String>,
}

/// The mathematical model of a [`UnionType`].
pub ghost struct UnionTypeView {
    pub description: Option<Seq<char>>,
    pub name: Seq<char>,
    pub directives: Seq<Seq<char>>,
    pub types: Seq<Seq<char>>,
}

impl DeepView for UnionType {
    type V = UnionTypeView;

    open spec fn deep_view(&self) -> UnionTypeView {
        UnionTypeView {
            description: self.description.deep_view(),
            name: self.name@,
            directives: self.directives.deep_view(),
            types: self.types.deep_view(),
        }
    }
}

/// One value of an enum.
#[derive(Debug, PartialEq, Eq)]
pub struct EnumValue {
    pub description: Option<String>,
    pub name: String,
    pub directives: Vec<String>,
}

/// The mathematical model of an [`EnumValue`].
pub ghost struct EnumValueView {
    pub description: Option<Seq<char>>,
    pub name: Seq<char>,
    pub directives: Seq<Seq<char>>,
}

impl DeepView for EnumValue {
    type V = EnumValueView;

    open spec fn deep_view(&self) -> EnumValueView {
        EnumValueView {
            description: self.description.deep_view(),
            name: self.name@,
            directives: self.directives.deep_view(),
        }
    }
}

/// The definition of an enum.
#[derive(Debug, PartialEq, Eq)]
pub struct EnumType {
    pub description: Option<String>,
    pub name: String,
    pub directives: Vec<String>,
    pub values: Vec<EnumValue>,
}

/// The mathematical model of an [`EnumType`].
pub ghost struct EnumTypeView {
    pub description: Option<Seq<char>>,
    pub name: Seq<char>,
    pub directives: Seq<Seq<char>>,
    pub values: Seq<EnumValueView>,
}

impl DeepView for EnumType {
    type V = EnumTypeView;

    open spec fn deep_view(&self) -> EnumTypeView {
        EnumTypeView {
            description: self.description.deep_view(),
            name: self.name@,
            directives: self.directives.deep_view(),
            values: self.values.deep_view(),
        }
    }
}

/// The definition of an input object.
#[derive(Debug, PartialEq, Eq)]
pub struct InputObjectType {
    pub description: Option<String>,
    pub name: String,
    pub directives: Vec<String>,
    pub fields: Vec<InputValue>,
}

/// The mathematical model of an [`InputObjectType`].
pub ghost struct InputObjectTypeView {
    pub description: Option<Seq<char>>,
    pub name: Seq<char>,
    pub directives: Seq<Seq<char>>,
    pub fields: Seq<InputValueView>,
}

impl DeepView for InputObjectType {
    type V = InputObjectTypeView;

    open spec fn deep_view(&self) -> InputObjectTypeView {
        InputObjectTypeView {
            description: self.description.deep_view(),
            name: self.name@,
            directives: self.directives.deep_view(),
            fields: self.fields.deep_view(),
        }
    }
}

/// The definition of a type, by kind.
#[derive(Debug, PartialEq, Eq)]
pub enum TypeDefinition {
    Scalar(ScalarType),
    Object(ObjectType),
    Interface(InterfaceType),
    Union(UnionType),
    Enum(EnumType),
    InputObject(InputObjectType),
}

/// The mathematical model of a [`TypeDefinition`].
pub ghost enum TypeDefinitionView {
    Scalar(ScalarTypeView),
    Object(ObjectTypeView),
    Interface(InterfaceTypeView),
    Union(UnionTypeView),
    Enum(EnumTypeView),
    InputObject(InputObjectTypeView),
}

impl DeepView for TypeDefinition {
    type V = TypeDefinitionView;

    open spec fn deep_view(&self) -> TypeDefinitionView {
        match *self {
            TypeDefinition::Scalar(scalar) => TypeDefinitionView::Scalar(scalar.deep_view()),
            TypeDefinition::Object(object) => TypeDefinitionView::Object(object.deep_view()),
            TypeDefinition::Interface(interface) => TypeDefinitionView::Interface(
                interface.deep_view(),
            ),
            TypeDefinition::Union(union_type) => TypeDefinitionView::Union(union_type.deep_view()),
            TypeDefinition::Enum(enum_type) => TypeDefinitionView::Enum(enum_type.deep_view()),
            TypeDefinition::InputObject(input) => TypeDefinitionView::InputObject(
                input.deep_view(),
            ),
        }
    }
}

/// One top-level definition of a schema document.
#[derive(Debug, PartialEq, Eq)]
pub enum Definition {
    SchemaDefinition(SchemaDefinition),
    TypeDefinition(TypeDefinition),
    /// An extension of a type; what it holds is never read.
    TypeExtension,
    /// The definition of a directive; what it holds is never read.
    DirectiveDefinition,
}

/// The mathematical model of a [`Definition`].
pub ghost enum DefinitionView {
    SchemaDefinition(SchemaDefinitionView),
    TypeDefinition(TypeDefinitionView),
    TypeExtension,
    DirectiveDefinition,
}

impl DeepView for Definition {
    type V = DefinitionView;

    open spec fn deep_view(&self) -> DefinitionView {
        match *self {
            Definition::SchemaDefinition(schema) => DefinitionView::SchemaDefinition(
                schema.deep_view(),
            ),
            Definition::TypeDefinition(type_def) => DefinitionView::TypeDefinition(
                type_def.deep_view(),
            ),
            Definition::TypeExtension => DefinitionView::TypeExtension,
            Definition::DirectiveDefinition => DefinitionView::DirectiveDefinition,
        }
    }
}

/// A schema document: its definitions, in order.
#[derive(Debug, PartialEq, Eq)]
pub struct Document {
    pub definitions: Vec<Definition>,
}

impl DeepView for Document {
    type V = Seq<DefinitionView>;

    open spec fn deep_view(&self) -> Seq<DefinitionView> {
        self.definitions.deep_view()
    }
}

} // verus!
