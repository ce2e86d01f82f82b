//! What holds of every evaluation, whatever the arithmetic is.

use vstd::prelude::*;
use crate::expr::ExprView;
use crate::grammar_laws::{fits, level_of};
use crate::interpreter::{
    arithmetic_of, binary_after, binary_outcome, comparison_of, evaluates, unary_after,
    unary_outcome, Outcome,
};
use crate::token::TokenView;
use crate::value::{Arithmetic, Comparison, ValueView};

verus! {

/// Whether two values are of the same kind.
pub open spec fn same_kind<N>(a: ValueView<N>, b: ValueView<N>) -> bool {
    match (a, b) {
        (ValueView::Number(_), ValueView::Number(_)) => true,
        (ValueView::Str(_), ValueView::Str(_)) => true,
        (ValueView::Bool(_), ValueView::Bool(_)) => true,
        (ValueView::Nil, ValueView::Nil) => true,
        _ => false,
    }
}

/// `==` and `!=` never fail: they give a truth value on every pair of
/// operands.
pub proof fn equality_never_fails<N, A: Fn(Arithmetic, N, N) -> N, C: Fn(Comparison, N, N) -> bool>(
    op: TokenView,
    left: ValueView<N>,
    right: ValueView<N>,
    arith: A,
    compare: C,
    out: Outcome<N>,
)
    requires
        op.kind is EqualEqual || op.kind is BangEqual,
        binary_outcome(op, left, right, arith, compare, out),
    ensures
        out matches Ok(ValueView::Bool(_)),
{
}

/// Values of different kinds are unequal: `==` gives false on them and
/// `!=` true.
pub proof fn different_kinds_are_unequal<
    N,
    A: Fn(Arithmetic, N, N) -> N,
    C: Fn(Comparison, N, N) -> bool,
>(op: TokenView, left: ValueView<N>, right: ValueView<N>, arith: A, compare: C, out: Outcome<N>)
    requires
        op.kind is EqualEqual || op.kind is BangEqual,
        !same_kind(left, right),
        binary_outcome(op, left, right, arith, compare, out),
    ensures
        out == Ok::<ValueView<N>, TokenView>(ValueView::Bool(op.kind is BangEqual)),
{
}

/// Values of one kind that is not the numbers are equal exactly when
/// they are the same.
pub proof fn like_values_are_equal_when_the_same<
    N,
    A: Fn(Arithmetic, N, N) -> N,
    C: Fn(Comparison, N, N) -> bool,
>(op: TokenView, left: ValueView<N>, right: ValueView<N>, arith: A, compare: C, out: Outcome<N>)
    requires
        op.kind is EqualEqual || op.kind is BangEqual,
        same_kind(left, right),
        !(left is Number),
        binary_outcome(op, left, right, arith, compare, out),
    ensures
        out == Ok::<ValueView<N>, TokenView>(
            ValueView::Bool((left == right) == (op.kind is EqualEqual)),
        ),
{
}

/// `+` joins two strings, and does nothing else to them.
pub proof fn plus_joins_strings<N, A: Fn(Arithmetic, N, N) -> N, C: Fn(Comparison, N, N) -> bool>(
    op: TokenView,
    x: Seq<char>,
    y: Seq<char>,
    arith: A,
    compare: C,
    out: Outcome<N>,
)
    requires
        op.kind is Plus,
        binary_outcome(op, ValueView::Str(x), ValueView::Str(y), arith, compare, out),
    ensures
        out == Ok::<ValueView<N>, TokenView>(ValueView::Str(x + y)),
{
}

/// An arithmetic or ordering operator fails with its own token unless
/// both operands are numbers, or it is `+` and both are strings.
pub proof fn mismatched_operands_fail<
    N,
    A: Fn(Arithmetic, N, N) -> N,
    C: Fn(Comparison, N, N) -> bool,
>(op: TokenView, left: ValueView<N>, right: ValueView<N>, arith: A, compare: C, out: Outcome<N>)
    requires
        arithmetic_of(op.kind) is Some || comparison_of(op.kind) is Some,
        !(left is Number && right is Number),
        !(op.kind is Plus && left is Str && right is Str),
        binary_outcome(op, left, right, arith, compare, out),
    ensures
        out == Err::<ValueView<N>, TokenView>(op),
{
}

/// A prefix operator fails with its own token unless it is `-` on a
/// number or `!` on a truth value.
pub proof fn mismatched_operand_fails<N, G: Fn(N) -> N>(
    op: TokenView,
    right: ValueView<N>,
    negate: G,
    out: Outcome<N>,
)
    requires
        !(op.kind is Minus && right is Number),
        !(op.kind is Bang && right is Bool),
        unary_outcome(op, right, negate, out),
    ensures
        out == Err::<ValueView<N>, TokenView>(op),
{
}

/// Whether each of the four functions on numbers gives one result for
/// one input.
pub open spec fn single_valued<
    N,
    L: Fn(&str) -> N,
    G: Fn(N) -> N,
    A: Fn(Arithmetic, N, N) -> N,
    C: Fn(Comparison, N, N) -> bool,
>(literal: L, negate: G, arith: A, compare: C) -> bool {
    &&& forall|s: &str, t: &str, a: N, b: N|
        s@ == t@ && #[trigger] literal.ensures((s,), a) && #[trigger] literal.ensures((t,), b)
            ==> a == b
    &&& forall|x: N, a: N, b: N|
        #[trigger] negate.ensures((x,), a) && #[trigger] negate.ensures((x,), b) ==> a == b
    &&& forall|o: Arithmetic, x: N, y: N, a: N, b: N|
        #[trigger] arith.ensures((o, x, y), a) && #[trigger] arith.ensures((o, x, y), b) ==> a
            == b
    &&& forall|o: Comparison, x: N, y: N, a: bool, b: bool|
        #[trigger] compare.ensures((o, x, y), a) && #[trigger] compare.ensures((o, x, y), b)
            ==> a == b
}

/// With functions on numbers that give one result for one input, an
/// expression has one outcome: evaluation keeps no state.
pub proof fn evaluation_is_deterministic<
    N,
    L: Fn(&str) -> N,
    G: Fn(N) -> N,
    A: Fn(Arithmetic, N, N) -> N,
    C: Fn(Comparison, N, N) -> bool,
>(e: ExprView, literal: L, negate: G, arith: A, compare: C, a: Outcome<N>, b: Outcome<N>)
    requires
        single_valued(literal, negate, arith, compare),
        evaluates(e, literal, negate, arith, compare, a),
        evaluates(e, literal, negate, arith, compare, b),
    ensures
        a == b,
    decreases e,
{
    match e {
        ExprView::Literal { value } => {},
        ExprView::Grouping { expression } => {
            evaluation_is_deterministic(*expression, literal, negate, arith, compare, a, b);
        },
        ExprView::Unary { op, right } => {
            let ra = choose|r: Outcome<N>|
                evaluates(*right, literal, negate, arith, compare, r) && #[trigger] unary_after(
                    op,
                    r,
                    negate,
                    a,
                );
            let rb = choose|r: Outcome<N>|
                evaluates(*right, literal, negate, arith, compare, r) && #[trigger] unary_after(
                    op,
                    r,
                    negate,
                    b,
                );
            evaluation_is_deterministic(*right, literal, negate, arith, compare, ra, rb);
        },
        ExprView::Binary { left, op, right } => {
            let (la, ra) = choose|l: Outcome<N>, r: Outcome<N>|
                evaluates(*left, literal, negate, arith, compare, l) && (l is Ok ==> evaluates(
                    *right,
                    literal,
                    negate,
                    arith,
                    compare,
                    r,
                )) && #[trigger] binary_after(op, l, r, arith, compare, a);
            let (lb, rb) = choose|l: Outcome<N>, r: Outcome<N>|
                evaluates(*left, literal, negate, arith, compare, l) && (l is Ok ==> evaluates(
                    *right,
                    literal,
                    negate,
                    arith,
                    compare,
                    r,
                )) && #[trigger] binary_after(op, l, r, arith, compare, b);
            evaluation_is_deterministic(*left, literal, negate, arith, compare, la, lb);
            if la is Ok {
                evaluation_is_deterministic(*right, literal, negate, arith, compare, ra, rb);
            }
        },
    }
}

/// Whether `t` is the operator of a unary or binary node of `e`.
pub open spec fn is_operator_of(e: ExprView, t: TokenView) -> bool
    decreases e,
{
    match e {
        ExprView::Literal { value } => false,
        ExprView::Grouping { expression } => is_operator_of(*expression, t),
        ExprView::Unary { op, right } => op == t || is_operator_of(*right, t),
        ExprView::Binary { left, op, right } => op == t || is_operator_of(*left, t)
            || is_operator_of(*right, t),
    }
}

/// A tree that fits the grammar fails only at one of its own operators:
/// the token of a runtime failure is an operator of the tree, with its
/// text and its line.
pub proof fn failure_names_an_operator_of_the_tree<
    N,
    L: Fn(&str) -> N,
    G: Fn(N) -> N,
    A: Fn(Arithmetic, N, N) -> N,
    C: Fn(Comparison, N, N) -> bool,
>(e: ExprView, height: int, literal: L, negate: G, arith: A, compare: C, t: TokenView)
    requires
        fits(e, height),
        evaluates(e, literal, negate, arith, compare, Err::<ValueView<N>, TokenView>(t)),
    ensures
        is_operator_of(e, t),
    decreases e,
{
    let out = Err::<ValueView<N>, TokenView>(t);
    match e {
        ExprView::Literal { value } => {},
        ExprView::Grouping { expression } => {
            failure_names_an_operator_of_the_tree(
                *expression,
                3,
                literal,
                negate,
                arith,
                compare,
                t,
            );
        },
        ExprView::Unary { op, right } => {
            let r = choose|r: Outcome<N>|
                evaluates(*right, literal, negate, arith, compare, r) && #[trigger] unary_after(
                    op,
                    r,
                    negate,
                    out,
                );
            if r is Err {
                failure_names_an_operator_of_the_tree(
                    *right,
                    -1,
                    literal,
                    negate,
                    arith,
                    compare,
                    t,
                );
            }
        },
        ExprView::Binary { left, op, right } => {
            let (l, r) = choose|l: Outcome<N>, r: Outcome<N>|
                evaluates(*left, literal, negate, arith, compare, l) && (l is Ok ==> evaluates(
                    *right,
                    literal,
                    negate,
                    arith,
                    compare,
                    r,
                )) && #[trigger] binary_after(op, l, r, arith, compare, out);
            let level = level_of(op.kind)->0;
            if l is Err {
                failure_names_an_operator_of_the_tree(
                    *left,
                    level.height() as int,
                    literal,
                    negate,
                    arith,
                    compare,
                    t,
                );
            } else if r is Err {
                failure_names_an_operator_of_the_tree(
                    *right,
                    level.height() - 1,
                    literal,
                    negate,
                    arith,
                    compare,
                    t,
                );
            }
        },
    }
}

} // verus!
