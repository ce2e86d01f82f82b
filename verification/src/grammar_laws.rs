//! The shape of the trees that the grammar gives: operators stand where
//! their level allows, and each level associates to the left.

use vstd::prelude::*;
use crate::expr::ExprView;
use crate::error::ParseFault;
use crate::grammar::{
    failure, next_is, parse_binary, parse_operand, parse_primary, parse_rest, parse_tokens, parse_unary,
    Level, Parsed, TokenClass,
};
use crate::token::{Kind, TokenView};

verus! {

/// The level of a binary operator.
pub open spec fn level_of(k: Kind) -> Option<Level> {
    match k {
        Kind::BangEqual | Kind::EqualEqual => Some(Level::Equality),
        Kind::Greater | Kind::GreaterEqual | Kind::Less | Kind::LessEqual => Some(
            Level::Comparison,
        ),
        Kind::Minus | Kind::Plus => Some(Level::Addition),
        Kind::Slash | Kind::Star => Some(Level::Multiplication),
        _ => None,
    }
}

/// Whether `e` is a tree that may stand where operators of at most
/// `height` levels above the tightest are allowed at the root (`-1`: no
/// binary operator at all).
///
/// In a binary node the operator is a binary operator, the left operand
/// may have an operator of the same level at its root, and the right
/// operand only tighter ones: the levels associate to the left. A
/// grouping allows every level again. A unary node has `!` or `-` and an
/// operand with no binary operator at its root. A literal holds a number,
/// a string, `true`, `false` or `nil`.
pub open spec fn fits(e: ExprView, height: int) -> bool
    decreases e,
{
    match e {
        ExprView::Literal { value } => TokenClass::LiteralValue.holds(value),
        ExprView::Grouping { expression } => fits(*expression, 3),
        ExprView::Unary { op, right } => TokenClass::PrefixOperator.holds(op.kind) && fits(
            *right,
            -1,
        ),
        ExprView::Binary { left, op, right } => match level_of(op.kind) {
            Some(level) => {
                &&& level.height() <= height
                &&& fits(*left, level.height() as int)
                &&& fits(*right, level.height() - 1)
            },
            None => false,
        },
    }
}

/// What the grammar promises of a parse that started at `pos` where at
/// most `height` was allowed: if it succeeded, it took at least one token
/// and gave a tree that fits.
pub open spec fn sound(ts: Seq<TokenView>, pos: int, height: int, parsed: Parsed) -> bool {
    parsed matches Parsed::Done { expr, next } ==> pos < next <= ts.len() && fits(expr, height)
}

/// A tree that fits fits where more is allowed.
pub proof fn lemma_fits_higher(e: ExprView, height: int, more: int)
    requires
        fits(e, height),
        height <= more,
    ensures
        fits(e, more),
{
}

pub proof fn lemma_primary_is_sound(ts: Seq<TokenView>, pos: int)
    ensures
        sound(ts, pos, -1, parse_primary(ts, pos)),
    decreases ts.len() - pos, 0nat,
{
    if next_is(ts, pos, TokenClass::LiteralValue) {
    } else if next_is(ts, pos, TokenClass::OpeningParen) {
        lemma_binary_is_sound(ts, pos + 1, Level::Equality);
    }
}

pub proof fn lemma_unary_is_sound(ts: Seq<TokenView>, pos: int)
    ensures
        sound(ts, pos, -1, parse_unary(ts, pos)),
    decreases ts.len() - pos, 1nat,
{
    if next_is(ts, pos, TokenClass::PrefixOperator) {
        lemma_unary_is_sound(ts, pos + 1);
    } else {
        lemma_primary_is_sound(ts, pos);
    }
}

pub proof fn lemma_operand_is_sound(ts: Seq<TokenView>, pos: int, level: Level)
    ensures
        sound(ts, pos, level.height() - 1, parse_operand(ts, pos, level)),
    decreases ts.len() - pos, 2 + 2 * level.height(),
{
    if level is Multiplication {
        lemma_unary_is_sound(ts, pos);
    } else {
        lemma_binary_is_sound(ts, pos, level.tighter());
    }
}

pub proof fn lemma_binary_is_sound(ts: Seq<TokenView>, pos: int, level: Level)
    ensures
        sound(ts, pos, level.height() as int, parse_binary(ts, pos, level)),
    decreases ts.len() - pos, 3 + 2 * level.height(),
{
    lemma_operand_is_sound(ts, pos, level);
    if let Parsed::Done { expr, next } = parse_operand(ts, pos, level) {
        lemma_fits_higher(expr, level.height() - 1, level.height() as int);
        lemma_rest_is_sound(ts, next, level, expr);
    }
}

pub proof fn lemma_rest_is_sound(ts: Seq<TokenView>, pos: int, level: Level, left: ExprView)
    requires
        pos <= ts.len(),
        fits(left, level.height() as int),
    ensures
        parse_rest(ts, pos, level, left) matches Parsed::Done { expr, next } ==> pos <= next
            <= ts.len() && fits(expr, level.height() as int),
    decreases ts.len() - pos, 0nat,
{
    if next_is(ts, pos, level.operators()) {
        lemma_operand_is_sound(ts, pos + 1, level);
        if let Parsed::Done { expr, next } = parse_operand(ts, pos + 1, level) {
            let folded = ExprView::Binary {
                left: Box::new(left),
                op: ts[pos],
                right: Box::new(expr),
            };
            assert(level_of(ts[pos].kind) == Some(level));
            lemma_rest_is_sound(ts, next, level, folded);
        }
    }
}

/// Every tree that the grammar gives fits it: operators stand where their
/// level allows, each binary level associates to the left, and literals
/// hold literal values. A successful parse takes at least one token.
pub proof fn parsed_trees_fit_the_grammar(ts: Seq<TokenView>)
    ensures
        parse_tokens(ts) matches Parsed::Done { expr, next } ==> 0 < next <= ts.len() && fits(
            expr,
            3,
        ),
{
    lemma_binary_is_sound(ts, 0, Level::Equality);
}

/// Where the tokens have ended, every construct fails for want of an
/// expression, with no token to name.
pub proof fn lemma_nothing_parses_at_the_end(ts: Seq<TokenView>, pos: int, level: Level)
    requires
        pos >= ts.len(),
    ensures
        parse_primary(ts, pos) == failure(ParseFault::ExpectedExpression, ts, pos),
        parse_unary(ts, pos) == failure(ParseFault::ExpectedExpression, ts, pos),
        parse_operand(ts, pos, level) == failure(ParseFault::ExpectedExpression, ts, pos),
        parse_binary(ts, pos, level) == failure(ParseFault::ExpectedExpression, ts, pos),
    decreases level.height(),
{
    if !(level is Multiplication) {
        lemma_nothing_parses_at_the_end(ts, pos, level.tighter());
    }
}

/// An operator with nothing behind it fails the parse: an expression was
/// expected, and no partial tree is given.
pub proof fn dangling_operator_fails(ts: Seq<TokenView>, level: Level, left: ExprView)
    requires
        ts.len() > 0,
        level.operators().holds(ts.last().kind),
    ensures
        parse_rest(ts, ts.len() - 1, level, left) == failure(
            ParseFault::ExpectedExpression,
            ts,
            ts.len() as int,
        ),
        failure(ParseFault::ExpectedExpression, ts, ts.len() as int) is Failed,
{
    lemma_nothing_parses_at_the_end(ts, ts.len() as int, level);
}

/// Behind the operands of a level, a token that starts an expression and
/// is no operator of the level fails the parse: an expression was not
/// expected there.
pub proof fn adjacent_expression_fails(ts: Seq<TokenView>, pos: int, level: Level, left: ExprView)
    requires
        next_is(ts, pos, TokenClass::ExpressionStart),
    ensures
        parse_rest(ts, pos, level, left) == failure(ParseFault::UnexpectedExpression, ts, pos),
{
}

} // verus!
