//! Diagnostics: what went wrong, and on which line.

use vstd::prelude::*;
use vstd::string::StringExecFns;
use crate::text::{decimal, push_decimal};
use crate::token::{Token, TokenType, TokenView};

verus! {

/// What the scanner can object to.
#[derive(Clone, Copy, Debug, PartialEq, Eq, Structural)]
pub enum LexicalFault {
    /// A character that starts no token.
    UnexpectedCharacter,
    /// A string literal whose closing quote is missing.
    UnterminatedString,
    /// A numeral that stops at its decimal point.
    NumberEndsWithDot,
}

/// A lexical error: the fault and the line on which it was found.
#[derive(Clone, Copy, Debug, PartialEq, Eq, Structural)]
pub struct SyntaxError {
    pub line: usize,
    pub fault: LexicalFault,
}

impl LexicalFault {
    /// The fault in words.
    pub open spec fn text(self) -> Seq<char> {
        match self {
            LexicalFault::UnexpectedCharacter => "Unexpected character."@,
            LexicalFault::UnterminatedString => "Unterminated string."@,
            LexicalFault::NumberEndsWithDot => "Number cannot end with '.' operator"@,
        }
    }

    /// The fault in words.
    pub fn message(&self) -> (r: &'static str)
        ensures
            r@ == self.text(),
    {
        match self {
            LexicalFault::UnexpectedCharacter => "Unexpected character.",
            LexicalFault::UnterminatedString => "Unterminated string.",
            LexicalFault::NumberEndsWithDot => "Number cannot end with '.' operator",
        }
    }
}

impl SyntaxError {
    /// The line to show for the error.
    pub fn report(&self) -> (r: String)
        ensures
            r@ == report_text(self.line as nat, Seq::empty(), self.fault.text()),
    {
        error(self.line, self.fault.message())
    }
}

/// A diagnostic as one line of text: the line number, where on the line
/// (or nothing), and the message.
pub open spec fn report_text(line: nat, location: Seq<char>, message: Seq<char>) -> Seq<char> {
    "[line "@ + decimal(line) + "] Error"@ + location + ": "@ + message
}

/// Where a token stands, in words: at the end of the input, or at its
/// text.
pub open spec fn location_text(token: TokenView) -> Seq<char> {
    if token.kind is EOF {
        " at end"@
    } else {
        " at '"@ + token.lexeme + "'"@
    }
}

/// The diagnostic for `message` on line `line`, at `location`.
fn report(line: usize, location: &str, message: &str) -> (r: String)
    ensures
        r@ == report_text(line as nat, location@, message@),
{
    let mut r = String::from_str("[line ");
    push_decimal(&mut r, line);
    r.append("] Error");
    r.append(location);
    r.append(": ");
    r.append(message);
    r
}

/// The diagnostic for `message` on line `line`.
pub fn error(line: usize, message: &str) -> (r: String)
    ensures
        r@ == report_text(line as nat, Seq::empty(), message@),
{
    let r = report(line, "", message);
    proof {
        reveal_strlit("");
        assert(""@ =~= Seq::<char>::empty());
    }
    r
}

/// The diagnostic for `message` at `token`.
pub fn token_error(token: &Token, message: &str) -> (r: String)
    ensures
        r@ == report_text(token.line as nat, location_text(token@), message@),
{
    if let TokenType::EOF = token.token_type {
        report(token.line, " at end", message)
    } else {
        let mut location = String::from_str(" at '");
        location.append(token.lexeme.as_str());
        location.append("'");
        report(token.line, location.as_str(), message)
    }
}

/// What the parser can object to.
#[derive(Clone, Copy, Debug, PartialEq, Eq, Structural)]
pub enum ParseFault {
    /// No expression starts at the token.
    ExpectedExpression,
    /// A parenthesis was opened and the token does not close it.
    ExpectedRightParen,
    /// An expression starts at the token, where an operator or the end
    /// should stand.
    UnexpectedExpression,
}

impl ParseFault {
    /// The fault in words.
    pub open spec fn text(self) -> Seq<char> {
        match self {
            ParseFault::ExpectedExpression => "Expected expression."@,
            ParseFault::ExpectedRightParen => "Expect ')' after expression."@,
            ParseFault::UnexpectedExpression => "Unexpected Expression"@,
        }
    }

    /// The fault in words.
    pub fn message(&self) -> (r: &'static str)
        ensures
            r@ == self.text(),
    {
        match self {
            ParseFault::ExpectedExpression => "Expected expression.",
            ParseFault::ExpectedRightParen => "Expect ')' after expression.",
            ParseFault::UnexpectedExpression => "Unexpected Expression",
        }
    }
}

/// A parse failure: the fault and the token at which it was found, or no
/// token where the input had ended.
#[derive(Debug)]
pub struct ParseError {
    pub fault: ParseFault,
    pub token: Option<Token>,
}

/// The mathematical value of a `ParseError`.
pub ghost struct ParseErrorView {
    pub fault: ParseFault,
    pub token: Option<TokenView>,
}

impl View for ParseError {
    type V = ParseErrorView;

    open spec fn view(&self) -> ParseErrorView {
        ParseErrorView {
            fault: self.fault,
            token: match self.token {
                Some(t) => Some(t@),
                None => None,
            },
        }
    }
}

impl ParseError {
    /// The line to show for the failure; none where the input had ended
    /// and there is no token to show.
    pub fn report(&self) -> (r: Option<String>)
        ensures
            match self@.token {
                Some(t) => r is Some && r->0@ == report_text(
                    t.line,
                    location_text(t),
                    self.fault.text(),
                ),
                None => r is None,
            },
    {
        match &self.token {
            Some(t) => Some(token_error(t, self.fault.message())),
            None => None,
        }
    }
}

/// A runtime failure: the operator that could not be applied to its
/// operands.
#[derive(Debug)]
pub struct RuntimeError(pub Token);

impl View for RuntimeError {
    type V = TokenView;

    open spec fn view(&self) -> TokenView {
        self.0@
    }
}

} // verus!
