//! The grammar as a mathematical function from tokens to a tree:
//!
//! ```text
//! expression     -> equality
//! equality       -> comparison ( ( "!=" | "==" ) comparison )*
//! comparison     -> addition ( ( ">" | ">=" | "<" | "<=" ) addition )*
//! addition       -> multiplication ( ( "-" | "+" ) multiplication )*
//! multiplication -> unary ( ( "/" | "*" ) unary )*
//! unary          -> ( "!" | "-" ) unary | primary
//! primary        -> NUMBER | STRING | "true" | "false" | "nil" | "(" expression ")"
//! ```
//!
//! Behind the operands of each binary level no expression may start: two
//! expressions with no operator between them are an error.

use vstd::prelude::*;
use crate::error::{ParseErrorView, ParseFault};
use crate::expr::ExprView;
use crate::token::{Kind, TokenType, TokenView};

verus! {

/// A set of token kinds that the parser looks ahead for.
#[derive(Clone, Copy, Debug)]
pub enum TokenClass {
    /// `!=` and `==`.
    EqualityOperator,
    /// `>`, `>=`, `<` and `<=`.
    ComparisonOperator,
    /// `-` and `+`.
    AdditionOperator,
    /// `/` and `*`.
    MultiplicationOperator,
    /// `!` and `-`.
    PrefixOperator,
    /// A number, a string, `true`, `false` and `nil`.
    LiteralValue,
    /// `(`.
    OpeningParen,
    /// What an expression may seem to start with: a literal, `(` or an
    /// identifier.
    ExpressionStart,
}

impl TokenClass {
    /// Whether a token of kind `k` belongs to the class.
    pub open spec fn holds(self, k: Kind) -> bool {
        match self {
            TokenClass::EqualityOperator => k is BangEqual || k is EqualEqual,
            TokenClass::ComparisonOperator => k is Greater || k is GreaterEqual || k is Less
                || k is LessEqual,
            TokenClass::AdditionOperator => k is Minus || k is Plus,
            TokenClass::MultiplicationOperator => k is Slash || k is Star,
            TokenClass::PrefixOperator => k is Bang || k is Minus,
            TokenClass::LiteralValue => k is True || k is False || k is Nil || k is Number
                || k is Str,
            TokenClass::OpeningParen => k is LeftParen,
            TokenClass::ExpressionStart => k is True || k is False || k is Nil || k is Number
                || k is Str || k is LeftParen || k is Identifier,
        }
    }

    /// Whether a token of kind `t` belongs to the class.
    pub fn includes(&self, t: &TokenType) -> (r: bool)
        ensures
            r == self.holds(t@),
    {
        match self {
            TokenClass::EqualityOperator => matches!(
                t,
                TokenType::BangEqual | TokenType::EqualEqual
            ),
            TokenClass::ComparisonOperator => matches!(
                t,
                TokenType::Greater | TokenType::GreaterEqual | TokenType::Less
                    | TokenType::LessEqual
            ),
            TokenClass::AdditionOperator => matches!(t, TokenType::Minus | TokenType::Plus),
            TokenClass::MultiplicationOperator => matches!(t, TokenType::Slash | TokenType::Star),
            TokenClass::PrefixOperator => matches!(t, TokenType::Bang | TokenType::Minus),
            TokenClass::LiteralValue => matches!(
                t,
                TokenType::True | TokenType::False | TokenType::Nil | TokenType::Number(_)
                    | TokenType::Str(_)
            ),
            TokenClass::OpeningParen => matches!(t, TokenType::LeftParen),
            TokenClass::ExpressionStart => matches!(
                t,
                TokenType::True | TokenType::False | TokenType::Nil | TokenType::Number(_)
                    | TokenType::Str(_) | TokenType::LeftParen | TokenType::Identifier
            ),
        }
    }
}

/// The four levels of left-associative binary operators, from the loosest
/// to the tightest.
#[derive(Clone, Copy, Debug, PartialEq, Eq, Structural)]
pub enum Level {
    Equality,
    Comparison,
    Addition,
    Multiplication,
}

impl Level {
    /// The operators of the level.
    pub open spec fn operators(self) -> TokenClass {
        match self {
            Level::Equality => TokenClass::EqualityOperator,
            Level::Comparison => TokenClass::ComparisonOperator,
            Level::Addition => TokenClass::AdditionOperator,
            Level::Multiplication => TokenClass::MultiplicationOperator,
        }
    }

    /// The operators of the level.
    pub fn class(&self) -> (r: TokenClass)
        ensures
            r == self.operators(),
    {
        match self {
            Level::Equality => TokenClass::EqualityOperator,
            Level::Comparison => TokenClass::ComparisonOperator,
            Level::Addition => TokenClass::AdditionOperator,
            Level::Multiplication => TokenClass::MultiplicationOperator,
        }
    }

    /// How many levels bind tighter.
    pub open spec fn height(self) -> nat {
        match self {
            Level::Equality => 3,
            Level::Comparison => 2,
            Level::Addition => 1,
            Level::Multiplication => 0,
        }
    }

    /// The next tighter level, for all but the tightest.
    pub open spec fn tighter(self) -> Level {
        match self {
            Level::Equality => Level::Comparison,
            Level::Comparison => Level::Addition,
            _ => Level::Multiplication,
        }
    }
}

/// What parsing one construct yields: the tree and the position of the
/// first token behind it, or the failure.
pub ghost enum Parsed {
    Done { expr: ExprView, next: int },
    Failed { error: ParseErrorView },
}

/// A failure at position `pos`: with the token there, or with none where
/// the tokens have ended.
pub open spec fn failure(fault: ParseFault, ts: Seq<TokenView>, pos: int) -> Parsed {
    Parsed::Failed {
        error: ParseErrorView {
            fault,
            token: if 0 <= pos < ts.len() {
                Some(ts[pos])
            } else {
                None
            },
        },
    }
}

/// Whether the token at `pos` exists and is of `class`.
pub open spec fn next_is(ts: Seq<TokenView>, pos: int, class: TokenClass) -> bool {
    0 <= pos < ts.len() && class.holds(ts[pos].kind)
}

/// primary -> literal | "(" expression ")"
pub open spec fn parse_primary(ts: Seq<TokenView>, pos: int) -> Parsed
    decreases ts.len() - pos, 0nat,
{
    if next_is(ts, pos, TokenClass::LiteralValue) {
        Parsed::Done { expr: ExprView::Literal { value: ts[pos].kind }, next: pos + 1 }
    } else if next_is(ts, pos, TokenClass::OpeningParen) {
        match parse_binary(ts, pos + 1, Level::Equality) {
            Parsed::Done { expr, next } => {
                if 0 <= next < ts.len() && ts[next].kind is RightParen {
                    Parsed::Done {
                        expr: ExprView::Grouping { expression: Box::new(expr) },
                        next: next + 1,
                    }
                } else {
                    failure(ParseFault::ExpectedRightParen, ts, next)
                }
            },
            failed => failed,
        }
    } else {
        failure(ParseFault::ExpectedExpression, ts, pos)
    }
}

/// unary -> ( "!" | "-" ) unary | primary
pub open spec fn parse_unary(ts: Seq<TokenView>, pos: int) -> Parsed
    decreases ts.len() - pos, 1nat,
{
    if next_is(ts, pos, TokenClass::PrefixOperator) {
        match parse_unary(ts, pos + 1) {
            Parsed::Done { expr, next } => Parsed::Done {
                expr: ExprView::Unary { op: ts[pos], right: Box::new(expr) },
                next,
            },
            failed => failed,
        }
    } else {
        parse_primary(ts, pos)
    }
}

/// An operand of a binary level: a construct of the next tighter level.
pub open spec fn parse_operand(ts: Seq<TokenView>, pos: int, level: Level) -> Parsed
    decreases ts.len() - pos, 2 + 2 * level.height(),
{
    if level is Multiplication {
        parse_unary(ts, pos)
    } else {
        parse_binary(ts, pos, level.tighter())
    }
}

/// A binary level: an operand, then operators of the level with an
/// operand each, folded to the left.
///
/// A construct that parses takes at least one token
/// (`lemma_binary_is_sound` in `grammar_laws`), so the test on `next`,
/// here and in `parse_rest`, never fails: it only shows that the parse
/// ends.
pub open spec fn parse_binary(ts: Seq<TokenView>, pos: int, level: Level) -> Parsed
    decreases ts.len() - pos, 3 + 2 * level.height(),
{
    match parse_operand(ts, pos, level) {
        Parsed::Done { expr, next } => {
            if pos < next <= ts.len() {
                parse_rest(ts, next, level, expr)
            } else {
                Parsed::Done { expr, next }
            }
        },
        failed => failed,
    }
}

/// The rest of a binary level behind the operands folded into `left`.
pub open spec fn parse_rest(ts: Seq<TokenView>, pos: int, level: Level, left: ExprView) -> Parsed
    decreases ts.len() - pos, 0nat,
{
    if next_is(ts, pos, level.operators()) {
        match parse_operand(ts, pos + 1, level) {
            Parsed::Done { expr, next } => {
                if pos < next <= ts.len() {
                    parse_rest(
                        ts,
                        next,
                        level,
                        ExprView::Binary { left: Box::new(left), op: ts[pos], right: Box::new(expr) },
                    )
                } else {
                    Parsed::Done { expr, next }
                }
            },
            failed => failed,
        }
    } else if next_is(ts, pos, TokenClass::ExpressionStart) {
        failure(ParseFault::UnexpectedExpression, ts, pos)
    } else {
        Parsed::Done { expr: left, next: pos }
    }
}

/// The parse of a token sequence: one expression from its start. Tokens
/// behind the expression that start no expression are left unread.
pub open spec fn parse_tokens(ts: Seq<TokenView>) -> Parsed {
    parse_binary(ts, 0, Level::Equality)
}

} // verus!
