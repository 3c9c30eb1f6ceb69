//! How schema names become the names of declarations.

use vstd::prelude::*;
use vstd::string::*;

verus! {

/// What `heck` makes of a name in camel case, each word capitalized.
pub uninterp spec fn camel_case(name: Seq<char>) -> Seq<char>;

/// What `heck` makes of a name in snake case.
pub uninterp spec fn snake_case(name: Seq<char>) -> Seq<char>;

/// Calls `heck::CamelCase::to_camel_case` on the name. The result depends on
/// the name alone; nothing more is claimed of it.
#[verifier::external_body]
pub(crate) fn to_camel_case(name: &str) -> (converted: String)
    ensures
        converted@ == camel_case(name@),
{
    heck::CamelCase::to_camel_case(name)
}

/// Calls `heck::SnakeCase::to_snake_case` on the name. The result depends on
/// the name alone; nothing more is claimed of it.
#[verifier::external_body]
pub(crate) fn to_snake_case(name: &str) -> (converted: String)
    ensures
        converted@ == snake_case(name@),
{
    heck::SnakeCase::to_snake_case(name)
}

/// Whether two texts are the same.
pub(crate) fn same_text(a: &str, b: &str) -> (same: bool)
    ensures
        same == (a@ == b@),
{
    String::from_str(a) == String::from_str(b)
}

/// The name of the variant that stands for a schema name.
pub open spec fn enum_name(name: Seq<char>) -> Seq<char> {
    camel_case(name)
}

/// The name of the method that resolves a field.
pub open spec fn field_method_name(field_name: Seq<char>) -> Seq<char> {
    "field_"@ + snake_case(field_name)
}

/// The name of the trait that holds the field methods of a type.
pub open spec fn fields_trait_name(struct_name: Seq<char>) -> Seq<char> {
    struct_name + "Fields"@
}

/// Names the variant that stands for a schema name: the name in camel case.
pub fn to_enum_name(name: &str) -> (variant: String)
    ensures
        variant@ == enum_name(name@),
{
    to_camel_case(name)
}

/// Names the method that resolves a field: `field_` and the field's name in
/// snake case.
pub fn to_field_method_name(field_name: &str) -> (method: String)
    ensures
        method@ == field_method_name(field_name@),
{
    let snake = to_snake_case(field_name);
    String::from_str("field_").concat(snake.as_str())
}

/// Names the trait that holds the field methods of a type: the type's name
/// and `Fields`.
pub fn trait_map_for_struct_name(struct_name: &str) -> (trait_name: String)
    ensures
        trait_name@ == fields_trait_name(struct_name@),
{
    String::from_str(struct_name).concat("Fields")
}

} // verus!
