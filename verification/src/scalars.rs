//! The target types of the scalars that every schema knows.

use vstd::prelude::*;
use vstd::string::*;
use crate::names::same_text;
use crate::code::{RustType, RustTypeView, TypeKind};

verus! {

/// The target type that stands for a named schema type, and its kind. The
/// built-in scalars and the two date scalars have fixed target types; any
/// other name stands for a type of the schema and is kept as it is.
pub open spec fn scalar_rust_type(name: Seq<char>) -> (RustTypeView, TypeKind) {
    if name == "String"@ {
        (RustTypeView::Named("String"@), TypeKind::Scalar)
    } else if name == "Float"@ {
        (RustTypeView::Named("f64"@), TypeKind::Scalar)
    } else if name == "Int"@ {
        (RustTypeView::Named("i32"@), TypeKind::Scalar)
    } else if name == "Boolean"@ {
        (RustTypeView::Named("bool"@), TypeKind::Scalar)
    } else if name == "ID"@ {
        (RustTypeView::Named("juniper::ID"@), TypeKind::Scalar)
    } else if name == "Date"@ {
        (RustTypeView::Named("chrono::naive::NaiveDate"@), TypeKind::Scalar)
    } else if name == "DateTime"@ {
        (RustTypeView::Named("chrono::DateTime<chrono::offset::Utc>"@), TypeKind::Scalar)
    } else {
        (RustTypeView::Named(name), TypeKind::Type)
    }
}

/// Whether a name is that of a built-in scalar.
pub open spec fn is_built_in_scalar(name: Seq<char>) -> bool {
    name == "String"@ || name == "Float"@ || name == "Int"@ || name == "Boolean"@ || name == "ID"@
}

/// Whether a name is that of a scalar whose target type is defined
/// elsewhere.
pub open spec fn is_reserved_scalar(name: Seq<char>) -> bool {
    name == "Date"@ || name == "DateTime"@
}

/// A name resolves to a plain value exactly when it is that of a built-in or
/// of a reserved scalar; any other name is kept as it is.
pub proof fn law_scalar_kinds(name: Seq<char>)
    ensures
        scalar_rust_type(name).1 == TypeKind::Scalar <==> is_built_in_scalar(name)
            || is_reserved_scalar(name),
        scalar_rust_type(name).1 == TypeKind::Type ==> scalar_rust_type(name).0
            == RustTypeView::Named(name),
{
}

/// Resolves a named schema type to its target type and kind.
pub fn graphql_scalar_type_to_rust_type(name: &str) -> (resolved: (RustType, TypeKind))
    ensures
        (resolved.0.deep_view(), resolved.1) == scalar_rust_type(name@),
{
    if same_text(name, "String") {
        (RustType::Named(String::from_str("String")), TypeKind::Scalar)
    } else if same_text(name, "Float") {
        (RustType::Named(String::from_str("f64")), TypeKind::Scalar)
    } else if same_text(name, "Int") {
        (RustType::Named(String::from_str("i32")), TypeKind::Scalar)
    } else if same_text(name, "Boolean") {
        (RustType::Named(String::from_str("bool")), TypeKind::Scalar)
    } else if same_text(name, "ID") {
        (RustType::Named(String::from_str("juniper::ID")), TypeKind::Scalar)
    } else if same_text(name, "Date") {
        (RustType::Named(String::from_str("chrono::naive::NaiveDate")), TypeKind::Scalar)
    } else if same_text(name, "DateTime") {
        (
            RustType::Named(String::from_str("chrono::DateTime<chrono::offset::Utc>")),
            TypeKind::Scalar,
        )
    } else {
        (RustType::Named(String::from_str(name)), TypeKind::Type)
    }
}

} // verus!
