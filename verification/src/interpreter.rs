//! The evaluator: a post-order walk of the tree.
//!
//! The evaluator decides what each operator does to the kinds of its
//! operands, joins strings and compares values. What it does not do is
//! arithmetic: numbers are of a type `N` that it only carries, and the
//! caller hands in the four functions that make and combine them. The
//! contracts say which of these functions gave each number of the result.

use vstd::prelude::*;
use vstd::string::StringExecFns;
use crate::error::RuntimeError;
use crate::expr::{Expr, ExprView};
use crate::token::{Kind, Token, TokenType, TokenView};
use crate::value::{Arithmetic, Comparison, Value, ValueView};

verus! {

/// The outcome of an evaluation, as a mathematical value: the value, or
/// the operator that failed.
pub type Outcome<N> = Result<ValueView<N>, TokenView>;

/// The outcome that the executable result `r` stands for.
pub open spec fn outcome_of<N>(r: Result<Value<N>, RuntimeError>) -> Outcome<N> {
    match r {
        Ok(v) => Ok(v@),
        Err(e) => Err(e@),
    }
}

/// Whether `literal` may turn the numeral `text` into `n`.
pub open spec fn converts<N, L: Fn(&str) -> N>(literal: L, text: Seq<char>, n: N) -> bool {
    exists|s: &str| s@ == text && #[trigger] literal.ensures((s,), n)
}

/// The arithmetic operation that an operator stands for.
pub open spec fn arithmetic_of(k: Kind) -> Option<Arithmetic> {
    match k {
        Kind::Plus => Some(Arithmetic::Add),
        Kind::Minus => Some(Arithmetic::Subtract),
        Kind::Slash => Some(Arithmetic::Divide),
        Kind::Star => Some(Arithmetic::Multiply),
        _ => None,
    }
}

/// The ordering comparison that an operator stands for.
pub open spec fn comparison_of(k: Kind) -> Option<Comparison> {
    match k {
        Kind::Greater => Some(Comparison::Greater),
        Kind::GreaterEqual => Some(Comparison::GreaterEqual),
        Kind::Less => Some(Comparison::Less),
        Kind::LessEqual => Some(Comparison::LessEqual),
        _ => None,
    }
}

/// What a literal evaluates to: a number made by `literal` from the
/// numeral, the string, a truth value or nil. A payload that is no
/// literal fails with an end marker of that kind.
pub open spec fn literal_outcome<N, L: Fn(&str) -> N>(k: Kind, literal: L, out: Outcome<N>) -> bool {
    match k {
        Kind::Number(text) => out matches Ok(ValueView::Number(n)) && converts(literal, text, n),
        Kind::Str(text) => out == Ok::<ValueView<N>, TokenView>(ValueView::Str(text)),
        Kind::True => out == Ok::<ValueView<N>, TokenView>(ValueView::Bool(true)),
        Kind::False => out == Ok::<ValueView<N>, TokenView>(ValueView::Bool(false)),
        Kind::Nil => out == Ok::<ValueView<N>, TokenView>(ValueView::Nil),
        _ => out == Err::<ValueView<N>, TokenView>(
            TokenView { kind: k, lexeme: Seq::empty(), line: 0 },
        ),
    }
}

/// What a prefix operator gives on an operand: `-` negates a number by
/// `negate`, `!` negates a truth value, and everything else fails with
/// the operator.
pub open spec fn unary_outcome<N, G: Fn(N) -> N>(
    op: TokenView,
    right: ValueView<N>,
    negate: G,
    out: Outcome<N>,
) -> bool {
    match (op.kind, right) {
        (Kind::Minus, ValueView::Number(x)) => out matches Ok(ValueView::Number(y))
            && negate.ensures((x,), y),
        (Kind::Bang, ValueView::Bool(b)) => out == Ok::<ValueView<N>, TokenView>(
            ValueView::Bool(!b),
        ),
        _ => out == Err::<ValueView<N>, TokenView>(op),
    }
}

/// Whether `same` may be the answer to "are `left` and `right` equal":
/// values of different kinds are not, two numbers are as `compare` says,
/// and other values of one kind are if they are the same.
pub open spec fn equality_outcome<N, C: Fn(Comparison, N, N) -> bool>(
    left: ValueView<N>,
    right: ValueView<N>,
    compare: C,
    same: bool,
) -> bool {
    match (left, right) {
        (ValueView::Number(x), ValueView::Number(y)) => compare.ensures(
            (Comparison::Equal, x, y),
            same,
        ),
        (ValueView::Str(x), ValueView::Str(y)) => same == (x == y),
        (ValueView::Bool(x), ValueView::Bool(y)) => same == (x == y),
        (ValueView::Nil, ValueView::Nil) => same,
        _ => !same,
    }
}

/// What a binary operator gives on two operands.
///
/// `+` joins two strings. `+ - / *` on two numbers give the number that
/// `arith` makes of them, and `> >= < <=` the truth value that `compare`
/// does; on anything else these operators fail with the operator. `==`
/// and `!=` never fail. Any other operator fails.
pub open spec fn binary_outcome<
    N,
    A: Fn(Arithmetic, N, N) -> N,
    C: Fn(Comparison, N, N) -> bool,
>(op: TokenView, left: ValueView<N>, right: ValueView<N>, arith: A, compare: C, out: Outcome<
    N,
>) -> bool {
    if arithmetic_of(op.kind) is Some {
        match (left, right) {
            (ValueView::Str(x), ValueView::Str(y)) if op.kind is Plus => out == Ok::<
                ValueView<N>,
                TokenView,
            >(ValueView::Str(x + y)),
            (ValueView::Number(x), ValueView::Number(y)) => out matches Ok(ValueView::Number(z))
                && arith.ensures((arithmetic_of(op.kind)->0, x, y), z),
            _ => out == Err::<ValueView<N>, TokenView>(op),
        }
    } else if comparison_of(op.kind) is Some {
        match (left, right) {
            (ValueView::Number(x), ValueView::Number(y)) => out matches Ok(ValueView::Bool(b))
                && compare.ensures((comparison_of(op.kind)->0, x, y), b),
            _ => out == Err::<ValueView<N>, TokenView>(op),
        }
    } else if op.kind is EqualEqual {
        out matches Ok(ValueView::Bool(b)) && equality_outcome(left, right, compare, b)
    } else if op.kind is BangEqual {
        out matches Ok(ValueView::Bool(b)) && equality_outcome(left, right, compare, !b)
    } else {
        out == Err::<ValueView<N>, TokenView>(op)
    }
}

/// The outcome of a prefix operator whose operand came to `right`: a
/// failure of the operand is the outcome.
pub open spec fn unary_after<N, G: Fn(N) -> N>(
    op: TokenView,
    right: Outcome<N>,
    negate: G,
    out: Outcome<N>,
) -> bool {
    match right {
        Ok(v) => unary_outcome(op, v, negate, out),
        Err(t) => out == Err::<ValueView<N>, TokenView>(t),
    }
}

/// The outcome of a binary operator whose operands came to `left` and
/// `right`: a failure of the left operand is the outcome, else one of the
/// right operand.
pub open spec fn binary_after<N, A: Fn(Arithmetic, N, N) -> N, C: Fn(Comparison, N, N) -> bool>(
    op: TokenView,
    left: Outcome<N>,
    right: Outcome<N>,
    arith: A,
    compare: C,
    out: Outcome<N>,
) -> bool {
    match left {
        Ok(lv) => match right {
            Ok(rv) => binary_outcome(op, lv, rv, arith, compare, out),
            Err(t) => out == Err::<ValueView<N>, TokenView>(t),
        },
        Err(t) => out == Err::<ValueView<N>, TokenView>(t),
    }
}

/// Whether `out` may be the outcome of evaluating `e`: children first,
/// the left one before the right one, which is not evaluated where the
/// left one fails.
pub open spec fn evaluates<
    N,
    L: Fn(&str) -> N,
    G: Fn(N) -> N,
    A: Fn(Arithmetic, N, N) -> N,
    C: Fn(Comparison, N, N) -> bool,
>(e: ExprView, literal: L, negate: G, arith: A, compare: C, out: Outcome<N>) -> bool
    decreases e,
{
    match e {
        ExprView::Literal { value } => literal_outcome(value, literal, out),
        ExprView::Grouping { expression } => evaluates(
            *expression,
            literal,
            negate,
            arith,
            compare,
            out,
        ),
        ExprView::Unary { op, right } => exists|r: Outcome<N>|
            evaluates(*right, literal, negate, arith, compare, r) && #[trigger] unary_after(
                op,
                r,
                negate,
                out,
            ),
        ExprView::Binary { left, op, right } => exists|l: Outcome<N>, r: Outcome<N>|
            evaluates(*left, literal, negate, arith, compare, l) && (l is Ok ==> evaluates(
                *right,
                literal,
                negate,
                arith,
                compare,
                r,
            )) && #[trigger] binary_after(op, l, r, arith, compare, out),
    }
}

impl RuntimeError {
    /// A failure at an end marker of the kind `token_type`, with no text,
    /// on line 0.
    pub fn empty(token_type: TokenType) -> (r: RuntimeError)
        ensures
            r@ == (TokenView { kind: token_type@, lexeme: Seq::empty(), line: 0 }),
    {
        let mut empty_token = Token::empty();
        empty_token.token_type = token_type;
        RuntimeError(empty_token)
    }
}

/// Evaluates a literal.
pub fn interpret_literal<N, L: Fn(&str) -> N>(value: &TokenType, literal: &L) -> (r: Result<
    Value<N>,
    RuntimeError,
>)
    requires
        forall|s: &str| literal.requires((s,)),
    ensures
        literal_outcome(value@, *literal, outcome_of(r)),
{
    match value {
        TokenType::Number(text) => Ok(Value::Number(literal(text.as_str()))),
        TokenType::Str(text) => Ok(Value::Str(text.clone())),
        TokenType::True => Ok(Value::Bool(true)),
        TokenType::False => Ok(Value::Bool(false)),
        TokenType::Nil => Ok(Value::Nil),
        _ => Err(RuntimeError::empty(value.clone())),
    }
}

/// Applies the prefix operator `op` to the value of its operand.
pub fn interpret_unary<N, G: Fn(N) -> N>(op: &Token, right: Value<N>, negate: &G) -> (r: Result<
    Value<N>,
    RuntimeError,
>)
    requires
        forall|x: N| negate.requires((x,)),
    ensures
        unary_outcome(op@, right@, *negate, outcome_of(r)),
{
    match op.token_type {
        TokenType::Minus => match right {
            Value::Number(num) => Ok(Value::Number(negate(num))),
            _ => Err(RuntimeError(op.clone())),
        },
        TokenType::Bang => match right {
            Value::Bool(truth) => Ok(Value::Bool(!truth)),
            _ => Err(RuntimeError(op.clone())),
        },
        _ => Err(RuntimeError(op.clone())),
    }
}

/// Whether two values are equal: never across kinds.
pub fn values_equal<N: Copy, C: Fn(Comparison, N, N) -> bool>(
    left: &Value<N>,
    right: &Value<N>,
    compare: &C,
) -> (same: bool)
    requires
        forall|c: Comparison, x: N, y: N| compare.requires((c, x, y)),
    ensures
        equality_outcome(left@, right@, *compare, same),
{
    match (left, right) {
        (Value::Number(x), Value::Number(y)) => compare(Comparison::Equal, *x, *y),
        (Value::Str(x), Value::Str(y)) => *x == *y,
        (Value::Bool(x), Value::Bool(y)) => *x == *y,
        (Value::Nil, Value::Nil) => true,
        _ => false,
    }
}

/// Applies the binary operator `op` to the values of its operands.
pub fn interpret_binary<
    N: Copy,
    A: Fn(Arithmetic, N, N) -> N,
    C: Fn(Comparison, N, N) -> bool,
>(op: &Token, left: Value<N>, right: Value<N>, arith: &A, compare: &C) -> (r: Result<
    Value<N>,
    RuntimeError,
>)
    requires
        forall|a: Arithmetic, x: N, y: N| arith.requires((a, x, y)),
        forall|c: Comparison, x: N, y: N| compare.requires((c, x, y)),
    ensures
        binary_outcome(op@, left@, right@, *arith, *compare, outcome_of(r)),
{
    match op.token_type {
        TokenType::Plus | TokenType::Minus | TokenType::Slash | TokenType::Star => {
            match (left, right) {
                (Value::Str(x), Value::Str(y)) => {
                    if let TokenType::Plus = op.token_type {
                        Ok(Value::Str(x.concat(y.as_str())))
                    } else {
                        Err(RuntimeError(op.clone()))
                    }
                },
                (Value::Number(x), Value::Number(y)) => {
                    let operation = match op.token_type {
                        TokenType::Plus => Arithmetic::Add,
                        TokenType::Minus => Arithmetic::Subtract,
                        TokenType::Slash => Arithmetic::Divide,
                        _ => Arithmetic::Multiply,
                    };
                    Ok(Value::Number(arith(operation, x, y)))
                },
                _ => Err(RuntimeError(op.clone())),
            }
        },
        TokenType::Greater | TokenType::GreaterEqual | TokenType::Less | TokenType::LessEqual => {
            match (left, right) {
                (Value::Number(x), Value::Number(y)) => {
                    let relation = match op.token_type {
                        TokenType::Greater => Comparison::Greater,
                        TokenType::GreaterEqual => Comparison::GreaterEqual,
                        TokenType::Less => Comparison::Less,
                        _ => Comparison::LessEqual,
                    };
                    Ok(Value::Bool(compare(relation, x, y)))
                },
                _ => Err(RuntimeError(op.clone())),
            }
        },
        TokenType::EqualEqual => Ok(Value::Bool(values_equal(&left, &right, compare))),
        TokenType::BangEqual => Ok(Value::Bool(!values_equal(&left, &right, compare))),
        _ => Err(RuntimeError(op.clone())),
    }
}

impl Expr {
    /// Evaluates the expression. Numerals become numbers by `literal`;
    /// `negate`, `arith` and `compare` are the operations on numbers.
    pub fn interpret<
        N: Copy,
        L: Fn(&str) -> N,
        G: Fn(N) -> N,
        A: Fn(Arithmetic, N, N) -> N,
        C: Fn(Comparison, N, N) -> bool,
    >(&self, literal: &L, negate: &G, arith: &A, compare: &C) -> (r: Result<
        Value<N>,
        RuntimeError,
    >)
        requires
            forall|s: &str| literal.requires((s,)),
            forall|x: N| negate.requires((x,)),
            forall|a: Arithmetic, x: N, y: N| arith.requires((a, x, y)),
            forall|c: Comparison, x: N, y: N| compare.requires((c, x, y)),
        ensures
            evaluates(self@, *literal, *negate, *arith, *compare, outcome_of(r)),
        decreases self,
    {
        match self {
            Expr::Literal { value } => interpret_literal(value, literal),
            Expr::Grouping { expression } => expression.interpret(literal, negate, arith, compare),
            Expr::Unary { op, right } => {
                let right_value = right.interpret(literal, negate, arith, compare);
                let ghost inner = outcome_of(right_value);
                let r = match right_value {
                    Ok(v) => interpret_unary(op, v, negate),
                    Err(e) => Err(e),
                };
                assert(unary_after(op@, inner, *negate, outcome_of(r)));
                r
            },
            Expr::Binary { left, op, right } => {
                let left_value = left.interpret(literal, negate, arith, compare);
                let ghost first = outcome_of(left_value);
                match left_value {
                    Ok(lv) => {
                        let right_value = right.interpret(literal, negate, arith, compare);
                        let ghost second = outcome_of(right_value);
                        let r = match right_value {
                            Ok(rv) => interpret_binary(op, lv, rv, arith, compare),
                            Err(e) => Err(e),
                        };
                        assert(binary_after(op@, first, second, *arith, *compare, outcome_of(r)));
                        r
                    },
                    Err(e) => {
                        let r = Err(e);
                        assert(binary_after(op@, first, first, *arith, *compare, outcome_of(r)));
                        r
                    },
                }
            },
        }
    }
}

} // verus!
