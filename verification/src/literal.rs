//! Default values of arguments, compiled to literal expressions.

use vstd::prelude::*;
use crate::error::{GenError, GenErrorView, result_view};
use crate::schema::{Value, ValueView};

verus! {

/// An expression that denotes a default value.
#[derive(Debug, PartialEq, Eq)]
pub enum Literal {
    /// A floating-point literal, held as the bits of its 64-bit encoding.
    Float(u64),
    /// A 32-bit integer literal.
    Int(i32),
    /// A string literal, made into an owned string.
    String(String),
    Boolean(bool),
    /// A lookup of an enum's variant by its schema name; which enum is meant
    /// is left to the type of the argument.
    EnumFromName(String),
    /// A sequence built by appending each item in turn.
    List(Vec<Literal>),
}

/// The mathematical model of a [`Literal`].
pub ghost enum LiteralView {
    Float(u64),
    Int(int),
    String(Seq<char>),
    Boolean(bool),
    EnumFromName(Seq<char>),
    List(Seq<LiteralView>),
}

/// The model of a literal expression.
pub open spec fn literal_view(l: Literal) -> LiteralView
    decreases l,
{
    match l {
        Literal::Float(bits) => LiteralView::Float(bits),
        Literal::Int(number) => LiteralView::Int(number as int),
        Literal::String(text) => LiteralView::String(text@),
        Literal::Boolean(b) => LiteralView::Boolean(b),
        Literal::EnumFromName(name) => LiteralView::EnumFromName(name@),
        Literal::List(items) => LiteralView::List(
            Seq::new(
                items@.len(),
                |i: int|
                    if 0 <= i < items@.len() {
                        literal_view(items@[i])
                    } else {
                        LiteralView::Boolean(false)
                    },
            ),
        ),
    }
}

impl DeepView for Literal {
    type V = LiteralView;

    open spec fn deep_view(&self) -> LiteralView {
        literal_view(*self)
    }
}

/// Whether an integer fits in 32 bits, signed.
pub open spec fn fits_i32(number: int) -> bool {
    -0x8000_0000 <= number <= 0x7fff_ffff
}

/// The literal expressions of a sequence of values, in order; the error of
/// the first value that has none.
pub open spec fn quote_values_spec(values: Seq<ValueView>) -> Result<Seq<LiteralView>, GenErrorView>
    decreases values, 0int,
{
    if values.len() == 0 {
        Ok(Seq::empty())
    } else {
        match quote_values_spec(values.drop_last()) {
            Err(error) => Err(error),
            Ok(items) => match quote_value_spec(values.last()) {
                Err(error) => Err(error),
                Ok(item) => Ok(items.push(item)),
            },
        }
    }
}

/// The literal expression of a default value, or why it has none.
pub open spec fn quote_value_spec(value: ValueView) -> Result<LiteralView, GenErrorView>
    decreases value, 1int,
{
    match value {
        ValueView::Float(bits) => Ok(LiteralView::Float(bits)),
        ValueView::Int(number) => if fits_i32(number) {
            Ok(LiteralView::Int(number))
        } else {
            Err(GenErrorView::IntegerOutOfRange(number))
        },
        ValueView::String(text) => Ok(LiteralView::String(text)),
        ValueView::Boolean(b) => Ok(LiteralView::Boolean(b)),
        ValueView::Enum(name) => Ok(LiteralView::EnumFromName(name)),
        ValueView::List(items) => match quote_values_spec(items) {
            Ok(literals) => Ok(LiteralView::List(literals)),
            Err(error) => Err(error),
        },
        ValueView::Object => Err(GenErrorView::ObjectDefault),
        ValueView::Variable(_) => Err(GenErrorView::VariableDefault),
        ValueView::Null => Err(GenErrorView::NullDefault),
    }
}

/// Narrows a 64-bit integer to 32 bits where it fits.
pub fn i32_from_i64(i: i64) -> (narrowed: Option<i32>)
    ensures
        narrowed is Some <==> fits_i32(i as int),
        narrowed is Some ==> narrowed->0 == i,
{
    if i > 0x7fff_ffffi64 || i < -0x8000_0000i64 {
        None
    } else {
        Some(i as i32)
    }
}

/// Compiles a default value to the expression that denotes it.
pub fn quote_value(value: &Value) -> (quoted: Result<Literal, GenError>)
    ensures
        result_view(quoted) == quote_value_spec(value.deep_view()),
    decreases value,
{
    match value {
        Value::Float(bits) => Ok(Literal::Float(*bits)),
        Value::Int(number) => match i32_from_i64(*number) {
            Some(narrowed) => Ok(Literal::Int(narrowed)),
            None => Err(GenError::IntegerOutOfRange(*number)),
        },
        Value::String(text) => Ok(Literal::String(text.clone())),
        Value::Boolean(b) => Ok(Literal::Boolean(*b)),
        Value::Enum(name) => Ok(Literal::EnumFromName(name.clone())),
        Value::List(list) => {
            let mut acc: Vec<Literal> = Vec::new();
            let ghost items = value.deep_view()->List_0;
            let mut i: usize = 0;
            assert(items.take(0).len() == 0);
            assert(acc.deep_view() == Seq::<LiteralView>::empty());
            while i < list.len()
                invariant
                    i <= list.len(),
                    items == value.deep_view()->List_0,
                    items.len() == list.len(),
                    value == Value::List(*list),
                    quote_values_spec(items.take(i as int)) == Ok::<_, GenErrorView>(
                        acc.deep_view(),
                    ),
                decreases list.len() - i,
            {
                let quoted = quote_value(&list[i]);
                proof {
                    assert(items.take(i as int + 1).drop_last() == items.take(i as int));
                    assert(items.take(i as int + 1).last() == list@[i as int].deep_view());
                }
                match quoted {
                    Err(error) => {
                        proof {
                            lemma_quote_values_error(items, i as int + 1);
                        }
                        return Err(error);
                    },
                    Ok(item) => {
                        let ghost before = acc.deep_view();
                        acc.push(item);
                        assert(acc.deep_view() == before.push(item.deep_view()));
                    },
                }
                i += 1;
            }
            assert(items.take(i as int) == items);
            let quoted = Literal::List(acc);
            assert(quoted.deep_view()->List_0 == acc.deep_view());
            Ok(quoted)
        },
        Value::Object => Err(GenError::ObjectDefault),
        Value::Variable(_) => Err(GenError::VariableDefault),
        Value::Null => Err(GenError::NullDefault),
    }
}

/// A value without a literal expression among the first `n` leaves the whole
/// sequence without one, and with the same error.
pub proof fn lemma_quote_values_error(values: Seq<ValueView>, n: int)
    requires
        0 <= n <= values.len(),
        quote_values_spec(values.take(n)) is Err,
    ensures
        quote_values_spec(values) == quote_values_spec(values.take(n)),
    decreases values.len() - n,
{
    if n < values.len() {
        assert(values.take(n + 1).drop_last() == values.take(n));
        lemma_quote_values_error(values, n + 1);
    } else {
        assert(values.take(n) == values);
    }
}

/// An integer that fits in 32 bits compiles to the literal of that integer;
/// any other integer is refused.
pub proof fn law_integer_literals(number: int)
    ensures
        fits_i32(number) ==> quote_value_spec(ValueView::Int(number)) == Ok::<_, GenErrorView>(
            LiteralView::Int(number),
        ),
        !fits_i32(number) ==> quote_value_spec(ValueView::Int(number)) == Err::<LiteralView, _>(
            GenErrorView::IntegerOutOfRange(number),
        ),
{
}

/// Where a sequence of values compiles, there is one literal for each value,
/// in order, and it is the literal of that value.
pub proof fn lemma_quote_values_ok(values: Seq<ValueView>)
    requires
        quote_values_spec(values) is Ok,
    ensures
        quote_values_spec(values)->Ok_0.len() == values.len(),
        forall|i: int|
            0 <= i < values.len() ==> quote_value_spec(#[trigger] values[i]) == Ok::<
                _,
                GenErrorView,
            >(quote_values_spec(values)->Ok_0[i]),
    decreases values.len(),
{
    if values.len() > 0 {
        lemma_quote_values_ok(values.drop_last());
        assert forall|i: int| 0 <= i < values.len() implies quote_value_spec(
            #[trigger] values[i],
        ) == Ok::<_, GenErrorView>(quote_values_spec(values)->Ok_0[i]) by {
            if i < values.len() - 1 {
                assert(values.drop_last()[i] == values[i]);
            }
        }
    }
}

/// Where every value of a sequence compiles, the sequence compiles.
pub proof fn lemma_quote_values_all_ok(values: Seq<ValueView>)
    requires
        forall|i: int| 0 <= i < values.len() ==> quote_value_spec(#[trigger] values[i]) is Ok,
    ensures
        quote_values_spec(values) is Ok,
    decreases values.len(),
{
    if values.len() > 0 {
        assert forall|i: int| 0 <= i < values.drop_last().len() implies quote_value_spec(
            #[trigger] values.drop_last()[i],
        ) is Ok by {
            assert(values.drop_last()[i] == values[i]);
        }
        lemma_quote_values_all_ok(values.drop_last());
        assert(values.last() == values[values.len() - 1]);
    }
}

/// A list compiles exactly when each of its items compiles, and then to the
/// sequence of the items' literals, in the order of the list.
pub proof fn law_list_literals(items: Seq<ValueView>)
    ensures
        quote_value_spec(ValueView::List(items)) is Ok <==> (forall|i: int|
            0 <= i < items.len() ==> quote_value_spec(#[trigger] items[i]) is Ok),
        quote_value_spec(ValueView::List(items)) is Ok ==> {
            let quoted = quote_value_spec(ValueView::List(items))->Ok_0;
            &&& quoted is List
            &&& quoted->List_0.len() == items.len()
            &&& forall|i: int|
                0 <= i < items.len() ==> quote_value_spec(#[trigger] items[i]) == Ok::<
                    _,
                    GenErrorView,
                >(quoted->List_0[i])
        },
{
    if quote_values_spec(items) is Ok {
        lemma_quote_values_ok(items);
    }
    if forall|i: int| 0 <= i < items.len() ==> quote_value_spec(#[trigger] items[i]) is Ok {
        lemma_quote_values_all_ok(items);
    }
}

/// A default of `null`, an object literal and a reference to a variable are
/// refused.
pub proof fn law_refused_defaults(name: Seq<char>)
    ensures
        quote_value_spec(ValueView::Null) == Err::<LiteralView, _>(GenErrorView::NullDefault),
        quote_value_spec(ValueView::Object) == Err::<LiteralView, _>(GenErrorView::ObjectDefault),
        quote_value_spec(ValueView::Variable(name)) == Err::<LiteralView, _>(
            GenErrorView::VariableDefault,
        ),
{
}

} // verus!
