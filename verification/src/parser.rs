//! The parser: recursive descent over the tokens, one function for each
//! rule of the grammar. The first failure ends the parse.

use vstd::prelude::*;
use crate::error::{ParseError, ParseErrorView, ParseFault};
use crate::expr::Expr;
use crate::grammar_laws::{fits, lemma_binary_is_sound};
use crate::grammar::{
    failure, next_is, parse_binary, parse_operand, parse_primary, parse_rest, parse_tokens,
    parse_unary, Level, Parsed, TokenClass,
};
use crate::token::{token_views, Token, TokenType, TokenView};

verus! {

/// A parser over one sequence of tokens, which it reads from left to
/// right and never changes.
pub struct Parser<'a> {
    tokens: &'a Vec<Token>,
    current: usize,
}

/// The mathematical state of a parser: the tokens, and the position of
/// the next one to read.
pub ghost struct ParserView {
    pub tokens: Seq<TokenView>,
    pub current: int,
}

impl ParserView {
    /// The position lies within the tokens, or just behind them.
    pub open spec fn wf(self) -> bool {
        0 <= self.current <= self.tokens.len()
    }

    /// Whether a parser that started in this state, ended in state `end`
    /// and returned `r` did what the grammar's `expected` says: on
    /// success the same tree, with the parser behind it; on failure the
    /// same error.
    pub open spec fn agrees(
        self,
        end: ParserView,
        r: Result<Expr, ParseError>,
        expected: Parsed,
    ) -> bool {
        &&& end.tokens == self.tokens
        &&& end.wf()
        &&& match expected {
            Parsed::Done { expr, next } => {
                &&& r is Ok
                &&& r->Ok_0@ == expr
                &&& end.current == next
                &&& self.current < next
            },
            Parsed::Failed { error } => {
                &&& r is Err
                &&& r->Err_0@ == error
            },
        }
    }
}

/// Whether `r` is the failure `fault` at position `pos`.
pub open spec fn fails_with<T>(
    r: Result<T, ParseError>,
    fault: ParseFault,
    ts: Seq<TokenView>,
    pos: int,
) -> bool {
    r is Err && (Parsed::Failed { error: r->Err_0@ }) == failure(fault, ts, pos)
}

impl<'a> View for Parser<'a> {
    type V = ParserView;

    closed spec fn view(&self) -> ParserView {
        ParserView { tokens: token_views(self.tokens@), current: self.current as int }
    }
}

impl<'a> Parser<'a> {
    /// A parser at the first of `tokens`.
    pub fn new(tokens: &'a Vec<Token>) -> (r: Parser<'a>)
        ensures
            r@.wf(),
            r@ == (ParserView { tokens: token_views(tokens@), current: 0 }),
    {
        Parser { tokens, current: 0 }
    }

    /// Parses one expression from the current position. The tree of a
    /// successful parse fits the grammar: each operator stands where its
    /// level allows.
    pub fn parse(&mut self) -> (r: Result<Expr, ParseError>)
        requires
            old(self)@.wf(),
        ensures
            old(self)@.agrees(
                final(self)@,
                r,
                parse_binary(old(self)@.tokens, old(self)@.current, Level::Equality),
            ),
            r matches Ok(e) ==> fits(e@, 3),
    {
        proof {
            lemma_binary_is_sound(self@.tokens, self@.current, Level::Equality);
        }
        self.expression()
    }

    fn expression(&mut self) -> (r: Result<Expr, ParseError>)
        requires
            old(self)@.wf(),
        ensures
            old(self)@.agrees(
                final(self)@,
                r,
                parse_binary(old(self)@.tokens, old(self)@.current, Level::Equality),
            ),
        decreases old(self)@.tokens.len() - old(self)@.current, 15nat,
    {
        self.equality()
    }

    fn equality(&mut self) -> (r: Result<Expr, ParseError>)
        requires
            old(self)@.wf(),
        ensures
            old(self)@.agrees(
                final(self)@,
                r,
                parse_binary(old(self)@.tokens, old(self)@.current, Level::Equality),
            ),
        decreases old(self)@.tokens.len() - old(self)@.current, 14nat,
    {
        self.binary(Level::Equality)
    }

    fn comparison(&mut self) -> (r: Result<Expr, ParseError>)
        requires
            old(self)@.wf(),
        ensures
            old(self)@.agrees(
                final(self)@,
                r,
                parse_binary(old(self)@.tokens, old(self)@.current, Level::Comparison),
            ),
        decreases old(self)@.tokens.len() - old(self)@.current, 11nat,
    {
        self.binary(Level::Comparison)
    }

    fn addition(&mut self) -> (r: Result<Expr, ParseError>)
        requires
            old(self)@.wf(),
        ensures
            old(self)@.agrees(
                final(self)@,
                r,
                parse_binary(old(self)@.tokens, old(self)@.current, Level::Addition),
            ),
        decreases old(self)@.tokens.len() - old(self)@.current, 8nat,
    {
        self.binary(Level::Addition)
    }

    fn multiplication(&mut self) -> (r: Result<Expr, ParseError>)
        requires
            old(self)@.wf(),
        ensures
            old(self)@.agrees(
                final(self)@,
                r,
                parse_binary(old(self)@.tokens, old(self)@.current, Level::Multiplication),
            ),
        decreases old(self)@.tokens.len() - old(self)@.current, 5nat,
    {
        self.binary(Level::Multiplication)
    }

    /// An operand of `level`: a construct of the next tighter level.
    fn operand(&mut self, level: Level) -> (r: Result<Expr, ParseError>)
        requires
            old(self)@.wf(),
        ensures
            old(self)@.agrees(
                final(self)@,
                r,
                parse_operand(old(self)@.tokens, old(self)@.current, level),
            ),
        decreases old(self)@.tokens.len() - old(self)@.current, 3 + 3 * level.height(),
    {
        match level {
            Level::Equality => self.comparison(),
            Level::Comparison => self.addition(),
            Level::Addition => self.multiplication(),
            Level::Multiplication => self.unary(),
        }
    }

    /// One binary level: an operand, then each operator of the level with
    /// its operand, folded to the left; then the test that no expression
    /// follows.
    fn binary(&mut self, level: Level) -> (r: Result<Expr, ParseError>)
        requires
            old(self)@.wf(),
        ensures
            old(self)@.agrees(
                final(self)@,
                r,
                parse_binary(old(self)@.tokens, old(self)@.current, level),
            ),
        decreases old(self)@.tokens.len() - old(self)@.current, 4 + 3 * level.height(),
    {
        let ghost ts = self@.tokens;
        let ghost from = self@.current;
        let mut expr = self.operand(level)?;
        loop
            invariant
                self@.wf(),
                self@.tokens == ts,
                ts == old(self)@.tokens,
                from == old(self)@.current,
                from < self@.current,
                parse_rest(ts, self@.current, level, expr@) == parse_binary(ts, from, level),
            ensures
                !next_is(ts, self@.current, level.operators()),
            decreases ts.len() - self@.current,
        {
            match self.check_next_token(level.class()) {
                Some(token) => {
                    let token = token.clone();
                    let right_expr = self.operand(level)?;
                    expr = Expr::Binary {
                        left: Box::new(expr),
                        op: token,
                        right: Box::new(right_expr),
                    };
                },
                None => {
                    break ;
                },
            }
        }
        self.check_unexpected_expr()?;
        Ok(expr)
    }

    fn unary(&mut self) -> (r: Result<Expr, ParseError>)
        requires
            old(self)@.wf(),
        ensures
            old(self)@.agrees(
                final(self)@,
                r,
                parse_unary(old(self)@.tokens, old(self)@.current),
            ),
        decreases old(self)@.tokens.len() - old(self)@.current, 1nat,
    {
        if let Some(token) = self.check_next_token(TokenClass::PrefixOperator) {
            let token = token.clone();
            let right_expr = self.unary()?;
            return Ok(Expr::Unary { op: token, right: Box::new(right_expr) });
        }
        self.primary()
    }

    fn primary(&mut self) -> (r: Result<Expr, ParseError>)
        requires
            old(self)@.wf(),
        ensures
            old(self)@.agrees(
                final(self)@,
                r,
                parse_primary(old(self)@.tokens, old(self)@.current),
            ),
        decreases old(self)@.tokens.len() - old(self)@.current, 0nat,
    {
        if let Some(token) = self.check_next_token(TokenClass::LiteralValue) {
            return Ok(Expr::Literal { value: token.token_type.clone() });
        }
        if let Some(_) = self.check_next_token(TokenClass::OpeningParen) {
            let expr = self.expression()?;
            self.consume(TokenType::RightParen, ParseFault::ExpectedRightParen)?;
            return Ok(Expr::Grouping { expression: Box::new(expr) });
        }
        if self.current < self.tokens.len() {
            return Err(Parser::error(&self.tokens[self.current], ParseFault::ExpectedExpression));
        }
        Err(ParseError { fault: ParseFault::ExpectedExpression, token: None })
    }

    /// Looks at the next token: if there is one and it is of `class`,
    /// takes it.
    fn check_next_token(&mut self, class: TokenClass) -> (r: Option<&'a Token>)
        requires
            old(self)@.wf(),
        ensures
            final(self)@.tokens == old(self)@.tokens,
            final(self)@.wf(),
            next_is(old(self)@.tokens, old(self)@.current, class) ==> r is Some && r->0@
                == old(self)@.tokens[old(self)@.current] && final(self)@.current == old(
                self,
            )@.current + 1,
            !next_is(old(self)@.tokens, old(self)@.current, class) ==> r is None && final(self)@
                == old(self)@,
    {
        if self.current < self.tokens.len() {
            if class.includes(&self.tokens[self.current].token_type) {
                return self.advance();
            } else {
                return None;
            }
        }
        None
    }

    /// Fails if an expression seems to start at the next token.
    fn check_unexpected_expr(&mut self) -> (r: Result<(), ParseError>)
        requires
            old(self)@.wf(),
        ensures
            final(self)@.tokens == old(self)@.tokens,
            final(self)@.wf(),
            next_is(old(self)@.tokens, old(self)@.current, TokenClass::ExpressionStart)
                ==> fails_with(
                r,
                ParseFault::UnexpectedExpression,
                old(self)@.tokens,
                old(self)@.current,
            ),
            !next_is(old(self)@.tokens, old(self)@.current, TokenClass::ExpressionStart) ==> r is Ok
                && final(self)@ == old(self)@,
    {
        if let Some(token) = self.check_next_token(TokenClass::ExpressionStart) {
            return Err(Parser::error(token, ParseFault::UnexpectedExpression));
        }
        Ok(())
    }

    /// Takes the next token, if there is one.
    fn advance(&mut self) -> (r: Option<&'a Token>)
        requires
            old(self)@.wf(),
        ensures
            final(self)@.tokens == old(self)@.tokens,
            final(self)@.wf(),
            old(self)@.current < old(self)@.tokens.len() ==> r is Some && r->0@ == old(
                self,
            )@.tokens[old(self)@.current] && final(self)@.current == old(self)@.current + 1,
            old(self)@.current >= old(self)@.tokens.len() ==> r is None && final(self)@ == old(
                self,
            )@,
    {
        if self.current < self.tokens.len() {
            let tokens: &'a Vec<Token> = self.tokens;
            let token = &tokens[self.current];
            self.current += 1;
            Some(token)
        } else {
            None
        }
    }

    /// The failure `fault` at `token`.
    fn error(token: &Token, fault: ParseFault) -> (r: ParseError)
        ensures
            r@ == (ParseErrorView { fault, token: Some(token@) }),
    {
        ParseError { fault, token: Some(token.clone()) }
    }

    /// Takes the next token if it is of the kind `token_type`; fails with
    /// `fault` otherwise.
    fn consume(&mut self, token_type: TokenType, fault: ParseFault) -> (r: Result<
        &'a Token,
        ParseError,
    >)
        requires
            old(self)@.wf(),
        ensures
            final(self)@.tokens == old(self)@.tokens,
            final(self)@.wf(),
            ({
                let before = old(self)@;
                if 0 <= before.current < before.tokens.len()
                    && before.tokens[before.current].kind.same_variant(token_type@) {
                    &&& r is Ok
                    &&& r->Ok_0@ == before.tokens[before.current]
                    &&& final(self)@.current == before.current + 1
                } else {
                    fails_with(r, fault, before.tokens, before.current)
                }
            }),
    {
        if self.current < self.tokens.len() {
            let tokens: &'a Vec<Token> = self.tokens;
            let token = &tokens[self.current];
            if token.token_type.same_variant(&token_type) {
                self.advance();
                return Ok(token);
            }
            Err(Parser::error(token, fault))
        } else {
            Err(ParseError { fault, token: None })
        }
    }
}

/// Parses one expression from the start of `tokens`. The first failure
/// ends the parse; tokens behind the expression are left unread.
pub fn parse(tokens: &Vec<Token>) -> (r: Result<Expr, ParseError>)
    ensures
        match parse_tokens(token_views(tokens@)) {
            Parsed::Done { expr, next } => r is Ok && r->Ok_0@ == expr,
            Parsed::Failed { error } => r is Err && r->Err_0@ == error,
        },
        r matches Ok(e) ==> fits(e@, 3),
{
    let mut parser = Parser::new(tokens);
    parser.parse()
}

} // verus!
