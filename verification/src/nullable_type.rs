//! Types with nullability made explicit.

use vstd::prelude::*;
use crate::schema::{Type, TypeView};

verus! {

/// A type in which being nullable is the marked case.
#[derive(Debug, PartialEq, Eq)]
pub enum NullableType {
    NamedType(String),
    ListType(Box<NullableType>),
    NullableType(Box<NullableType>),
}

/// The mathematical model of a [`NullableType`].
pub ghost enum NullableTypeView {
    NamedType(Seq<char>),
    ListType(Box<NullableTypeView>),
    NullableType(Box<NullableTypeView>),
}

/// The model of a normalized type.
pub open spec fn nullable_type_view(t: NullableType) -> NullableTypeView
    decreases t,
{
    match t {
        NullableType::NamedType(name) => NullableTypeView::NamedType(name@),
        NullableType::ListType(inner) => NullableTypeView::ListType(
            Box::new(nullable_type_view(*inner)),
        ),
        NullableType::NullableType(inner) => NullableTypeView::NullableType(
            Box::new(nullable_type_view(*inner)),
        ),
    }
}

impl DeepView for NullableType {
    type V = NullableTypeView;

    open spec fn deep_view(&self) -> NullableTypeView {
        nullable_type_view(*self)
    }
}

/// What a schema type denotes once its own nullability is set aside: the
/// named type, or the list of its normalized item type.
pub open spec fn strip(t: TypeView) -> NullableTypeView
    decreases t, 0int,
{
    match t {
        TypeView::NamedType(name) => NullableTypeView::NamedType(name),
        TypeView::ListType(inner) => NullableTypeView::ListType(Box::new(normalize(*inner))),
        TypeView::NonNullType(inner) => strip(*inner),
    }
}

/// The normalized form of a schema type: a type that the schema does not mark
/// non-null is nullable, at every level.
pub open spec fn normalize(t: TypeView) -> NullableTypeView
    decreases t, 1int,
{
    match t {
        TypeView::NonNullType(inner) => strip(*inner),
        _ => NullableTypeView::NullableType(Box::new(strip(t))),
    }
}

/// A normalized type without its outermost nullable marker, if it has one.
pub open spec fn without_one_layer(t: NullableTypeView) -> NullableTypeView {
    match t {
        NullableTypeView::NullableType(inner) => *inner,
        _ => t,
    }
}

impl NullableType {
    /// Normalizes a schema type.
    pub fn from_schema_type(schema_type: &Type) -> (normalized: NullableType)
        ensures
            normalized.deep_view() == normalize(schema_type.deep_view()),
        decreases schema_type, 1int,
    {
        match schema_type {
            Type::NonNullType(inner) => Self::from_schema_type_inner(inner),
            _ => NullableType::NullableType(Box::new(Self::from_schema_type_inner(schema_type))),
        }
    }

    fn from_schema_type_inner(schema_type: &Type) -> (stripped: NullableType)
        ensures
            stripped.deep_view() == strip(schema_type.deep_view()),
        decreases schema_type, 0int,
    {
        match schema_type {
            Type::NamedType(name) => NullableType::NamedType(name.clone()),
            Type::ListType(inner) => NullableType::ListType(
                Box::new(Self::from_schema_type(inner)),
            ),
            Type::NonNullType(inner) => Self::from_schema_type_inner(inner),
        }
    }

    /// Takes the outermost nullable marker off, if there is one.
    pub fn remove_one_layer_of_nullability(self) -> (inner: NullableType)
        ensures
            inner.deep_view() == without_one_layer(self.deep_view()),
    {
        match self {
            NullableType::NullableType(inner) => *inner,
            other => other,
        }
    }

    /// Whether the outermost layer is the nullable marker.
    pub fn is_nullable(&self) -> (nullable: bool)
        ensures
            nullable == (self.deep_view() is NullableType),
    {
        match self {
            NullableType::NullableType(_) => true,
            _ => false,
        }
    }
}

/// The schema type that a normalized type stands for: marked non-null
/// unless the normalized type is nullable.
pub open spec fn encode(t: NullableTypeView) -> TypeView
    decreases t, 1int,
{
    match t {
        NullableTypeView::NullableType(inner) => bare(*inner),
        _ => TypeView::NonNullType(Box::new(bare(t))),
    }
}

/// The schema type that a normalized type stands for, without a mark of its
/// own.
pub open spec fn bare(t: NullableTypeView) -> TypeView
    decreases t, 0int,
{
    match t {
        NullableTypeView::NamedType(name) => TypeView::NamedType(name),
        NullableTypeView::ListType(item) => TypeView::ListType(Box::new(encode(*item))),
        NullableTypeView::NullableType(inner) => bare(*inner),
    }
}

/// Whether a normalized type nowhere marks a nullable type as nullable once
/// more.
pub open spec fn singly_nullable(t: NullableTypeView) -> bool
    decreases t,
{
    match t {
        NullableTypeView::NamedType(_) => true,
        NullableTypeView::ListType(item) => singly_nullable(*item),
        NullableTypeView::NullableType(inner) => !(*inner is NullableType) && singly_nullable(
            *inner,
        ),
    }
}

/// Whether a schema type nowhere marks a non-null type as non-null once
/// more.
pub open spec fn singly_non_null(t: TypeView) -> bool
    decreases t,
{
    match t {
        TypeView::NamedType(_) => true,
        TypeView::ListType(item) => singly_non_null(*item),
        TypeView::NonNullType(inner) => !(*inner is NonNullType) && singly_non_null(*inner),
    }
}

/// A schema type with its own nullability set aside is never nullable, and
/// with it taken into account it is nullable at most once at each level.
pub proof fn lemma_normalized_shape(t: TypeView)
    ensures
        !(strip(t) is NullableType),
        singly_nullable(strip(t)),
        singly_nullable(normalize(t)),
    decreases t,
{
    match t {
        TypeView::NamedType(_) => {},
        TypeView::ListType(inner) => {
            lemma_normalized_shape(*inner);
        },
        TypeView::NonNullType(inner) => {
            lemma_normalized_shape(*inner);
        },
    }
}

/// A type that the schema marks non-null is normalized to a type without a
/// nullable marker on top.
pub proof fn law_non_null_is_not_nullable(t: TypeView)
    ensures
        !(normalize(TypeView::NonNullType(Box::new(t))) is NullableType),
{
    lemma_normalized_shape(t);
}

/// A type that the schema does not mark non-null is normalized to a nullable
/// type, with exactly one nullable marker on top of what the type denotes.
pub proof fn law_unmarked_is_nullable_once(t: TypeView)
    requires
        !(t is NonNullType),
    ensures
        normalize(t) == NullableTypeView::NullableType(Box::new(strip(t))),
        !(strip(t) is NullableType),
{
    lemma_normalized_shape(t);
}

/// The normalized form of a schema type never marks a nullable type as
/// nullable once more.
pub proof fn law_normalized_is_singly_nullable(t: TypeView)
    ensures
        singly_nullable(normalize(t)),
{
    lemma_normalized_shape(t);
}

/// Normalizing the schema type that a normalized type stands for gives the
/// normalized type back.
pub proof fn law_normalize_encode(t: NullableTypeView)
    requires
        singly_nullable(t),
    ensures
        normalize(encode(t)) == t,
        !(t is NullableType) ==> strip(bare(t)) == t,
    decreases t,
{
    match t {
        NullableTypeView::NamedType(_) => {},
        NullableTypeView::ListType(item) => {
            law_normalize_encode(*item);
        },
        NullableTypeView::NullableType(inner) => {
            law_normalize_encode(*inner);
            match *inner {
                NullableTypeView::NamedType(_) => {},
                NullableTypeView::ListType(_) => {},
                NullableTypeView::NullableType(_) => {},
            }
        },
    }
}

/// The normalized form of a schema type stands for that schema type.
pub proof fn law_encode_normalize(t: TypeView)
    requires
        singly_non_null(t),
    ensures
        encode(normalize(t)) == t,
        !(t is NonNullType) ==> bare(strip(t)) == t,
    decreases t,
{
    lemma_normalized_shape(t);
    match t {
        TypeView::NamedType(_) => {},
        TypeView::ListType(item) => {
            law_encode_normalize(*item);
        },
        TypeView::NonNullType(inner) => {
            law_encode_normalize(*inner);
            lemma_normalized_shape(*inner);
            match *inner {
                TypeView::NamedType(_) => {},
                TypeView::ListType(_) => {},
                TypeView::NonNullType(_) => {},
            }
        },
    }
}

/// Normalizing is stable: the schema type that a normalized form stands for
/// is normalized to that same form.
pub proof fn law_normalize_round_trip(t: TypeView)
    ensures
        normalize(encode(normalize(t))) == normalize(t),
{
    lemma_normalized_shape(t);
    law_normalize_encode(normalize(t));
}

} // verus!
