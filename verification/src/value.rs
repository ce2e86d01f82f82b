//! Runtime values.

use vstd::prelude::*;

verus! {

/// The result of an evaluation. `N` is the type of the numbers: the
/// program that embeds the evaluator chooses it, and supplies the
/// arithmetic on it.
#[derive(Debug, PartialEq)]
pub enum Value<N> {
    Number(N),
    Str(String),
    Bool(bool),
    Nil,
}

/// The mathematical value of a `Value`.
pub ghost enum ValueView<N> {
    Number(N),
    Str(Seq<char>),
    Bool(bool),
    Nil,
}

impl<N> View for Value<N> {
    type V = ValueView<N>;

    open spec fn view(&self) -> ValueView<N> {
        match self {
            Value::Number(n) => ValueView::Number(*n),
            Value::Str(s) => ValueView::Str(s@),
            Value::Bool(b) => ValueView::Bool(*b),
            Value::Nil => ValueView::Nil,
        }
    }
}

/// The four arithmetic operations on two numbers.
#[derive(Clone, Copy, Debug, PartialEq, Eq, Structural)]
pub enum Arithmetic {
    Add,
    Subtract,
    Divide,
    Multiply,
}

/// The comparisons of two numbers.
#[derive(Clone, Copy, Debug, PartialEq, Eq, Structural)]
pub enum Comparison {
    Greater,
    GreaterEqual,
    Less,
    LessEqual,
    Equal,
}

} // verus!
