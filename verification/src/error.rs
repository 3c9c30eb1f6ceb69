//! The ways in which generation can fail.

use vstd::prelude::*;
use vstd::string::*;

verus! {

/// Why a schema cannot be compiled. Every failure ends the whole run.
#[derive(Debug, PartialEq, Eq)]
pub enum GenError {
    /// A directive is attached to a definition, or a directive is defined.
    Directives,
    /// The schema extends a type.
    Extensions,
    /// The schema names a subscription root.
    Subscriptions,
    /// The schema definition names no query root.
    MissingQuery,
    /// No type implements the interface, or the union has no member.
    NoImplementors(String),
    /// The pattern for annotations could not be compiled.
    AttributePattern,
    /// An annotation has a key that is not known.
    UnsupportedAttributeKey(String),
    /// An annotation gives a known key a value that is not known.
    UnsupportedAttributeValue { key: String, value: String },
    /// An integer default does not fit in 32 bits.
    IntegerOutOfRange(i64),
    /// A default value is an object literal.
    ObjectDefault,
    /// A default value refers to a variable.
    VariableDefault,
    /// A default value is `null`.
    NullDefault,
    /// An argument has a default value and a type marked non-null.
    DefaultOnNonNullable,
}

/// The mathematical model of a [`GenError`].
pub ghost enum GenErrorView {
    Directives,
    Extensions,
    Subscriptions,
    MissingQuery,
    NoImplementors(Seq<char>),
    AttributePattern,
    UnsupportedAttributeKey(Seq<char>),
    UnsupportedAttributeValue { key: Seq<char>, value: Seq<char> },
    IntegerOutOfRange(int),
    ObjectDefault,
    VariableDefault,
    NullDefault,
    DefaultOnNonNullable,
}

impl DeepView for GenError {
    type V = GenErrorView;

    open spec fn deep_view(&self) -> GenErrorView {
        match *self {
            GenError::Directives => GenErrorView::Directives,
            GenError::Extensions => GenErrorView::Extensions,
            GenError::Subscriptions => GenErrorView::Subscriptions,
            GenError::MissingQuery => GenErrorView::MissingQuery,
            GenError::NoImplementors(name) => GenErrorView::NoImplementors(name@),
            GenError::AttributePattern => GenErrorView::AttributePattern,
            GenError::UnsupportedAttributeKey(key) => GenErrorView::UnsupportedAttributeKey(key@),
            GenError::UnsupportedAttributeValue { key, value } => {
                GenErrorView::UnsupportedAttributeValue { key: key@, value: value@ }
            },
            GenError::IntegerOutOfRange(number) => GenErrorView::IntegerOutOfRange(number as int),
            GenError::ObjectDefault => GenErrorView::ObjectDefault,
            GenError::VariableDefault => GenErrorView::VariableDefault,
            GenError::NullDefault => GenErrorView::NullDefault,
            GenError::DefaultOnNonNullable => GenErrorView::DefaultOnNonNullable,
        }
    }
}

/// The model of a result: the model of what it holds on either side.
pub open spec fn result_view<T: DeepView>(r: Result<T, GenError>) -> Result<T::V, GenErrorView> {
    match r {
        Ok(value) => Ok(value.deep_view()),
        Err(error) => Err(error.deep_view()),
    }
}

/// The message that describes an error.
pub open spec fn message_text(error: GenErrorView) -> Seq<char> {
    match error {
        GenErrorView::Directives => "Directives are not supported"@,
        GenErrorView::Extensions => "Extensions are not supported"@,
        GenErrorView::Subscriptions => "Subscriptions are not supported"@,
        GenErrorView::MissingQuery => "Juniper requires that the schema type has a query"@,
        GenErrorView::NoImplementors(name) => "There are no implementors of "@ + name,
        GenErrorView::AttributePattern => "The pattern of attributes is not a regular expression"@,
        GenErrorView::UnsupportedAttributeKey(key) => "Unsupported attribute key '"@ + key + "'"@,
        GenErrorView::UnsupportedAttributeValue { key, value } => "Unsupported attribute value '"@
            + value + "' for key '"@ + key + "'"@,
        GenErrorView::IntegerOutOfRange(_) => "Default number argument does not fit in 32 bits"@,
        GenErrorView::ObjectDefault => "Default arguments where the type is an object is currently not supported."@,
        GenErrorView::VariableDefault => "Default arguments cannot refer to variables."@,
        GenErrorView::NullDefault => "Having a default argument value of `null` is not supported. Use a nullable type instead."@,
        GenErrorView::DefaultOnNonNullable => "Fields with default arguments values must be nullable"@,
    }
}

impl GenError {
    /// Describes the error, naming what it is about.
    pub fn message(&self) -> (text: String)
        ensures
            text@ == message_text(self.deep_view()),
    {
        match self {
            GenError::Directives => String::from_str("Directives are not supported"),
            GenError::Extensions => String::from_str("Extensions are not supported"),
            GenError::Subscriptions => String::from_str("Subscriptions are not supported"),
            GenError::MissingQuery => String::from_str(
                "Juniper requires that the schema type has a query",
            ),
            GenError::NoImplementors(name) => String::from_str(
                "There are no implementors of ",
            ).concat(name.as_str()),
            GenError::AttributePattern => String::from_str(
                "The pattern of attributes is not a regular expression",
            ),
            GenError::UnsupportedAttributeKey(key) => String::from_str(
                "Unsupported attribute key '",
            ).concat(key.as_str()).concat("'"),
            GenError::UnsupportedAttributeValue { key, value } => String::from_str(
                "Unsupported attribute value '",
            ).concat(value.as_str()).concat("' for key '").concat(key.as_str()).concat("'"),
            GenError::IntegerOutOfRange(_) => String::from_str(
                "Default number argument does not fit in 32 bits",
            ),
            GenError::ObjectDefault => String::from_str(
                "Default arguments where the type is an object is currently not supported.",
            ),
            GenError::VariableDefault => String::from_str(
                "Default arguments cannot refer to variables.",
            ),
            GenError::NullDefault => String::from_str(
                "Having a default argument value of `null` is not supported. Use a nullable type instead.",
            ),
            GenError::DefaultOnNonNullable => String::from_str(
                "Fields with default arguments values must be nullable",
            ),
        }
    }
}

} // verus!
