//! The values the evaluation bridge works on: primitive literals, extension
//! values carrying a `u256` payload with its provenance, the argument
//! expressions the static checker inspects, and the runtime error surface.

use vstd::prelude::*;

use crate::names::Name;
use crate::uint256::{limbs_value, UINT256};

verus! {

/// A primitive literal value.
#[derive(Debug)]
pub enum Literal {
    Bool(bool),
    Long(i64),
    Str(String),
}

/// An extension value: an immutable `u256` payload together with its
/// provenance, the constructor that made it and the text it was made from.
#[derive(Debug)]
pub struct ExtensionValueWithArgs {
    pub value: UINT256,
    pub constructor_name: Name,
    pub arg_text: String,
}

impl ExtensionValueWithArgs {
    /// The typename of the extension this value belongs to.
    pub fn typename(&self) -> (r: Name)
        ensures
            r@ == "u256"@,
    {
        UINT256::typename()
    }
}

/// An evaluated value: a primitive literal or an extension value.
#[derive(Debug)]
pub enum Value {
    Lit(Literal),
    ExtensionValue(ExtensionValueWithArgs),
}

/// The payload of an extension value; zero on the other variants, which no
/// contract reaches.
pub open spec fn payload_of(v: Value) -> int {
    match v {
        Value::ExtensionValue(ev) => limbs_value(ev.value),
        _ => 0,
    }
}

/// The text of a string literal value; empty on the other variants, which no
/// contract reaches.
pub open spec fn lit_str_view(v: Value) -> Seq<char> {
    match v {
        Value::Lit(Literal::Str(s)) => s@,
        _ => Seq::empty(),
    }
}

/// Value equality as the evaluator's built-in equality sees it: literals are
/// equal by kind and content, extension values of the same extension are
/// equal exactly when their payloads are, and values of different kinds are
/// never equal.
pub open spec fn value_eq(a: Value, b: Value) -> bool {
    match (a, b) {
        (Value::Lit(Literal::Bool(x)), Value::Lit(Literal::Bool(y))) => x == y,
        (Value::Lit(Literal::Long(x)), Value::Lit(Literal::Long(y))) => x == y,
        (Value::Lit(Literal::Str(x)), Value::Lit(Literal::Str(y))) => x@ == y@,
        (Value::ExtensionValue(x), Value::ExtensionValue(y)) => limbs_value(x.value)
            == limbs_value(y.value),
        _ => false,
    }
}

/// Decides `value_eq`: the equality capability every extension value
/// supports.
pub fn values_equal(a: &Value, b: &Value) -> (r: bool)
    ensures
        r == value_eq(*a, *b),
{
    match (a, b) {
        (Value::Lit(Literal::Bool(x)), Value::Lit(Literal::Bool(y))) => *x == *y,
        (Value::Lit(Literal::Long(x)), Value::Lit(Literal::Long(y))) => *x == *y,
        (Value::Lit(Literal::Str(x)), Value::Lit(Literal::Str(y))) => *x == *y,
        (Value::ExtensionValue(x), Value::ExtensionValue(y)) => x.value.same_value(&y.value),
        _ => false,
    }
}

/// An unevaluated argument expression, as the static checker receives it from
/// the expression tree: a literal, or anything else (a variable or computed
/// expression), which the static checker does not look into.
#[derive(Debug)]
pub enum Expr {
    Lit(Literal),
    Var(Name),
}

/// The single runtime error this extension surfaces: the extension's name and
/// a human-readable message.
#[derive(Debug)]
pub struct ExtensionError {
    pub extension_name: Name,
    pub msg: String,
}

} // verus!
