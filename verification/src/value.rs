//! The values that expressions compute and variables hold.

use crate::text::{quote, quoted, signed_decimal, signed_to_string};
use vstd::prelude::*;

verus! {

/// A value of the expression language. A floating-point number is held by
/// the 64 bits of its IEEE 754 binary form, so that it can be carried and
/// compared without arithmetic.
#[derive(Debug, PartialEq)]
pub enum ScriptValue {
    Str(String),
    Float(u64),
    Int(i64),
    Bool(bool),
    Tuple(Vec<ScriptValue>),
    Empty,
}

/// A `ScriptValue` as plain values.
pub ghost enum ValueModel {
    Str(Seq<char>),
    Float(u64),
    Int(i64),
    Bool(bool),
    Tuple(Seq<ValueModel>),
    Empty,
}

/// The six kinds of value; a variable keeps its kind for a whole run.
#[derive(Clone, Copy, Debug, PartialEq, Eq, Structural)]
pub enum ValueKind {
    Str,
    Float,
    Int,
    Bool,
    Tuple,
    Empty,
}

/// The plain value that `value` stands for.
pub open spec fn model_of(value: ScriptValue) -> ValueModel
    decreases value,
{
    match value {
        ScriptValue::Str(text) => ValueModel::Str(text@),
        ScriptValue::Float(bits) => ValueModel::Float(bits),
        ScriptValue::Int(number) => ValueModel::Int(number),
        ScriptValue::Bool(flag) => ValueModel::Bool(flag),
        ScriptValue::Tuple(items) => ValueModel::Tuple(
            Seq::new(
                items@.len(),
                |i: int|
                    if 0 <= i < items@.len() {
                        model_of(items@[i])
                    } else {
                        ValueModel::Empty
                    },
            ),
        ),
        ScriptValue::Empty => ValueModel::Empty,
    }
}

impl View for ScriptValue {
    type V = ValueModel;

    open spec fn view(&self) -> ValueModel {
        model_of(*self)
    }
}

/// The text that number formatting writes for the floating-point number with
/// the given bits: its shortest decimal form that reads back as the same
/// number.
pub uninterp spec fn float_text(bits: u64) -> Seq<char>;

/// Formats a floating-point number, given by its bits, with `to_string` of
/// the standard library. The result depends on the bits alone.
#[verifier::external_body]
pub(crate) fn float_to_text(bits: u64) -> (r: String)
    ensures
        r@ == float_text(bits),
{
    evalexpr::FloatType::from_bits(bits).to_string()
}

impl ValueModel {
    pub open spec fn kind(self) -> ValueKind {
        match self {
            ValueModel::Str(_) => ValueKind::Str,
            ValueModel::Float(_) => ValueKind::Float,
            ValueModel::Int(_) => ValueKind::Int,
            ValueModel::Bool(_) => ValueKind::Bool,
            ValueModel::Tuple(_) => ValueKind::Tuple,
            ValueModel::Empty => ValueKind::Empty,
        }
    }

    /// The literal that stands for this value in a script's text: a string
    /// between double quotes, a number or a boolean as it is written, and
    /// nothing for a tuple or the empty value.
    pub open spec fn literal(self) -> Seq<char> {
        match self {
            ValueModel::Str(text) => quoted(text),
            ValueModel::Float(bits) => float_text(bits),
            ValueModel::Int(number) => signed_decimal(number as int),
            ValueModel::Bool(flag) => if flag {
                "true"@
            } else {
                "false"@
            },
            _ => Seq::empty(),
        }
    }
}

impl ScriptValue {
    pub fn kind(&self) -> (r: ValueKind)
        ensures
            r == self@.kind(),
    {
        match self {
            ScriptValue::Str(_) => ValueKind::Str,
            ScriptValue::Float(_) => ValueKind::Float,
            ScriptValue::Int(_) => ValueKind::Int,
            ScriptValue::Bool(_) => ValueKind::Bool,
            ScriptValue::Tuple(_) => ValueKind::Tuple,
            ScriptValue::Empty => ValueKind::Empty,
        }
    }

    /// The literal that stands for this value in a script's text.
    pub fn to_literal(&self) -> (r: String)
        ensures
            r@ == self@.literal(),
    {
        match self {
            ScriptValue::Str(text) => quote(text.as_str()),
            ScriptValue::Float(bits) => float_to_text(*bits),
            ScriptValue::Int(number) => signed_to_string(*number),
            ScriptValue::Bool(flag) => {
                if *flag {
                    String::from_str("true")
                } else {
                    String::from_str("false")
                }
            },
            _ => String::new(),
        }
    }
}

} // verus!
