use juniper_from_schema::error::GenError;
use juniper_from_schema::literal::{i32_from_i64, quote_value, Literal};
use juniper_from_schema::schema::Value;

#[test]
fn integers_in_range_compile_to_themselves() {
    for n in [0i64, 1, -1, 42, 2147483647, -2147483648] {
        assert_eq!(quote_value(&Value::Int(n)), Ok(Literal::Int(n as i32)));
    }
}

#[test]
fn integers_out_of_range_fail() {
    for n in [2147483648i64, -2147483649, i64::MAX, i64::MIN] {
        assert_eq!(quote_value(&Value::Int(n)), Err(GenError::IntegerOutOfRange(n)));
    }
}

#[test]
fn narrowing() {
    assert_eq!(i32_from_i64(7), Some(7));
    assert_eq!(i32_from_i64(2147483647), Some(i32::MAX));
    assert_eq!(i32_from_i64(-2147483648), Some(i32::MIN));
    assert_eq!(i32_from_i64(2147483648), None);
    assert_eq!(i32_from_i64(-2147483649), None);
}

#[test]
fn a_list_appends_its_items_in_order() {
    let list = Value::List(vec![Value::Int(1), Value::Int(2), Value::Int(3)]);
    assert_eq!(
        quote_value(&list),
        Ok(Literal::List(vec![Literal::Int(1), Literal::Int(2), Literal::Int(3)]))
    );
}

#[test]
fn an_empty_list() {
    assert_eq!(quote_value(&Value::List(vec![])), Ok(Literal::List(vec![])));
}

#[test]
fn nested_lists() {
    let list = Value::List(vec![
        Value::List(vec![Value::Boolean(true)]),
        Value::List(vec![]),
        Value::List(vec![Value::Boolean(false), Value::Boolean(true)]),
    ]);
    assert_eq!(
        quote_value(&list),
        Ok(Literal::List(vec![
            Literal::List(vec![Literal::Boolean(true)]),
            Literal::List(vec![]),
            Literal::List(vec![Literal::Boolean(false), Literal::Boolean(true)]),
        ]))
    );
}

#[test]
fn a_list_fails_with_its_first_failing_item() {
    let list = Value::List(vec![
        Value::Int(1),
        Value::Variable("x".to_string()),
        Value::Null,
    ]);
    assert_eq!(quote_value(&list), Err(GenError::VariableDefault));
    let list = Value::List(vec![Value::List(vec![Value::Int(1), Value::Null]), Value::Object]);
    assert_eq!(quote_value(&list), Err(GenError::NullDefault));
}

#[test]
fn null_object_and_variable_defaults_fail() {
    assert_eq!(quote_value(&Value::Null), Err(GenError::NullDefault));
    assert_eq!(quote_value(&Value::Object), Err(GenError::ObjectDefault));
    assert_eq!(quote_value(&Value::Variable("id".to_string())), Err(GenError::VariableDefault));
}

#[test]
fn strings_booleans_and_floats() {
    assert_eq!(
        quote_value(&Value::String("hello".to_string())),
        Ok(Literal::String("hello".to_string()))
    );
    assert_eq!(quote_value(&Value::Boolean(true)), Ok(Literal::Boolean(true)));
    assert_eq!(quote_value(&Value::Boolean(false)), Ok(Literal::Boolean(false)));
    let bits = 1.5f64.to_bits();
    assert_eq!(quote_value(&Value::Float(bits)), Ok(Literal::Float(bits)));
    match quote_value(&Value::Float(bits)) {
        Ok(Literal::Float(b)) => assert_eq!(f64::from_bits(b), 1.5),
        other => panic!("{:?}", other),
    }
}

#[test]
fn an_enum_symbol_is_looked_up_by_name() {
    assert_eq!(
        quote_value(&Value::Enum("PUBLISHED".to_string())),
        Ok(Literal::EnumFromName("PUBLISHED".to_string()))
    );
}

#[test]
fn error_messages() {
    assert_eq!(GenError::Directives.message(), "Directives are not supported");
    assert_eq!(GenError::Extensions.message(), "Extensions are not supported");
    assert_eq!(GenError::Subscriptions.message(), "Subscriptions are not supported");
    assert_eq!(
        GenError::MissingQuery.message(),
        "Juniper requires that the schema type has a query"
    );
    assert_eq!(
        GenError::NoImplementors("Entity".to_string()).message(),
        "There are no implementors of Entity"
    );
    assert_eq!(
        GenError::UnsupportedAttributeKey("colour".to_string()).message(),
        "Unsupported attribute key 'colour'"
    );
    assert_eq!(
        GenError::UnsupportedAttributeValue {
            key: "ownership".to_string(),
            value: "bogus".to_string()
        }
        .message(),
        "Unsupported attribute value 'bogus' for key 'ownership'"
    );
    assert_eq!(
        GenError::NullDefault.message(),
        "Having a default argument value of `null` is not supported. Use a nullable type instead."
    );
    assert_eq!(
        GenError::VariableDefault.message(),
        "Default arguments cannot refer to variables."
    );
    assert_eq!(
        GenError::ObjectDefault.message(),
        "Default arguments where the type is an object is currently not supported."
    );
    assert_eq!(
        GenError::DefaultOnNonNullable.message(),
        "Fields with default arguments values must be nullable"
    );
    assert_eq!(
        GenError::IntegerOutOfRange(1 << 40).message(),
        "Default number argument does not fit in 32 bits"
    );
    assert_eq!(
        GenError::AttributePattern.message(),
        "The pattern of attributes is not a regular expression"
    );
}
