//! The lexical grammar as a mathematical function from text to tokens.

use vstd::prelude::*;
use crate::error::LexicalFault;
use crate::token::{Kind, TokenView};

verus! {

/// Alphabetic in Unicode, as `char::is_alphabetic` decides it.
pub uninterp spec fn alphabetic(c: char) -> bool;

/// Alphabetic or numeric in Unicode, as `char::is_alphanumeric` decides it.
pub uninterp spec fn alphanumeric(c: char) -> bool;

/// Calls `char::is_alphabetic`: whether `c` is alphabetic in Unicode.
/// The result is taken as a function of the character alone.
#[verifier::external_body]
pub(crate) fn char_is_alphabetic(c: char) -> (r: bool)
    ensures
        r == alphabetic(c),
{
    c.is_alphabetic()
}

/// Calls `char::is_alphanumeric`: whether `c` is alphabetic or numeric in
/// Unicode. The result is taken as a function of the character alone.
#[verifier::external_body]
pub(crate) fn char_is_alphanumeric(c: char) -> (r: bool)
    ensures
        r == alphanumeric(c),
{
    c.is_alphanumeric()
}

/// A decimal digit, `0` to `9`.
pub open spec fn is_digit(c: char) -> bool {
    '0' <= c <= '9'
}

/// A letter of the basic Latin alphabet, which is alphabetic in Unicode.
pub open spec fn is_ascii_letter(c: char) -> bool {
    ('a' <= c <= 'z') || ('A' <= c <= 'Z')
}

/// A character that may start an identifier or a reserved word.
pub open spec fn is_word_start(c: char) -> bool {
    is_ascii_letter(c) || alphabetic(c) || c == '_'
}

/// A character that may continue an identifier or a reserved word.
pub open spec fn is_word_part(c: char) -> bool {
    is_ascii_letter(c) || is_digit(c) || alphanumeric(c) || c == '_'
}

/// A set of characters that the scanner looks ahead for.
#[derive(Clone, Copy, Debug)]
pub enum CharClass {
    /// The given character.
    Is(char),
    /// Any character but the given one.
    IsNot(char),
    /// A decimal digit.
    Digit,
    /// A character that may continue an identifier.
    WordPart,
}

impl CharClass {
    /// Whether `c` belongs to the class.
    pub open spec fn accepts(self, c: char) -> bool {
        match self {
            CharClass::Is(x) => c == x,
            CharClass::IsNot(x) => c != x,
            CharClass::Digit => is_digit(c),
            CharClass::WordPart => is_word_part(c),
        }
    }
}

impl CharClass {
    /// Whether `c` belongs to the class.
    pub fn includes(&self, c: char) -> (r: bool)
        ensures
            r == self.accepts(c),
    {
        match self {
            CharClass::Is(x) => c == *x,
            CharClass::IsNot(x) => c != *x,
            CharClass::Digit => c >= '0' && c <= '9',
            CharClass::WordPart => {
                (c >= 'a' && c <= 'z') || (c >= 'A' && c <= 'Z') || (c >= '0' && c <= '9')
                    || c == '_' || char_is_alphanumeric(c)
            },
        }
    }
}

/// Whether `c` may start an identifier or a reserved word.
pub fn starts_word(c: char) -> (r: bool)
    ensures
        r == is_word_start(c),
{
    (c >= 'a' && c <= 'z') || (c >= 'A' && c <= 'Z') || c == '_' || char_is_alphabetic(c)
}

/// Where the longest run of characters of `class` that starts at `from`
/// ends (the index just behind it).
pub open spec fn run_end(s: Seq<char>, from: int, class: CharClass) -> int
    decreases s.len() - from,
{
    if 0 <= from < s.len() && class.accepts(s[from]) {
        run_end(s, from + 1, class)
    } else {
        from
    }
}

/// How many line feeds `s` holds.
pub open spec fn newlines(s: Seq<char>) -> nat
    decreases s.len(),
{
    if s.len() == 0 {
        0
    } else {
        newlines(s.drop_last()) + if s.last() == '\n' { 1nat } else { 0nat }
    }
}

/// The kind of a token that is one punctuation character, if `c` is one.
pub open spec fn punctuation(c: char) -> Option<Kind> {
    if c == '(' {
        Some(Kind::LeftParen)
    } else if c == ')' {
        Some(Kind::RightParen)
    } else if c == '{' {
        Some(Kind::LeftBrace)
    } else if c == '}' {
        Some(Kind::RightBrace)
    } else if c == ',' {
        Some(Kind::Comma)
    } else if c == '.' {
        Some(Kind::Dot)
    } else if c == '-' {
        Some(Kind::Minus)
    } else if c == '+' {
        Some(Kind::Plus)
    } else if c == ';' {
        Some(Kind::SemiColon)
    } else if c == '*' {
        Some(Kind::Star)
    } else {
        None
    }
}

/// The two kinds of an operator that may be followed by `=`: with it and
/// without it.
pub open spec fn comparison_pair(c: char) -> Option<(Kind, Kind)> {
    if c == '!' {
        Some((Kind::BangEqual, Kind::Bang))
    } else if c == '=' {
        Some((Kind::EqualEqual, Kind::Equal))
    } else if c == '<' {
        Some((Kind::LessEqual, Kind::Less))
    } else if c == '>' {
        Some((Kind::GreaterEqual, Kind::Greater))
    } else {
        None
    }
}

/// Space, carriage return and tab: characters that give no token.
pub open spec fn is_blank(c: char) -> bool {
    c == ' ' || c == '\r' || c == '\t'
}

/// The kind of a word: that of the reserved word it is, else `Identifier`.
pub open spec fn word_kind(text: Seq<char>) -> Kind {
    if text == "and"@ {
        Kind::And
    } else if text == "class"@ {
        Kind::Class
    } else if text == "else"@ {
        Kind::Else
    } else if text == "false"@ {
        Kind::False
    } else if text == "for"@ {
        Kind::For
    } else if text == "fun"@ {
        Kind::Fun
    } else if text == "if"@ {
        Kind::If
    } else if text == "nil"@ {
        Kind::Nil
    } else if text == "or"@ {
        Kind::Or
    } else if text == "print"@ {
        Kind::Print
    } else if text == "return"@ {
        Kind::Return
    } else if text == "super"@ {
        Kind::Super
    } else if text == "this"@ {
        Kind::This
    } else if text == "true"@ {
        Kind::True
    } else if text == "var"@ {
        Kind::Var
    } else if text == "while"@ {
        Kind::While
    } else {
        Kind::Identifier
    }
}

/// What scanning one lexical element yields: where the next one starts, the
/// line there, and the token or the error that the element gave, if any.
pub ghost struct Step {
    pub next: int,
    pub line: nat,
    pub token: Option<TokenView>,
    pub error: Option<(nat, LexicalFault)>,
}

/// The step that gives a token of `kind` for the text from `pos` up to
/// `next`.
pub open spec fn token_step(s: Seq<char>, pos: int, next: int, line: nat, kind: Kind) -> Step {
    Step {
        next,
        line,
        token: Some(TokenView { kind, lexeme: s.subrange(pos, next), line }),
        error: None,
    }
}

/// The step that gives nothing.
pub open spec fn silent_step(next: int, line: nat) -> Step {
    Step { next, line, token: None, error: None }
}

/// A string literal that opens at `pos`: it runs to the next quote, and
/// its token stands on the line of the opening quote.
pub open spec fn string_step(s: Seq<char>, pos: int, line: nat) -> Step {
    let close = run_end(s, pos + 1, CharClass::IsNot('"'));
    let inner = s.subrange(pos + 1, close);
    let last_line = line + newlines(inner);
    if close < s.len() {
        Step {
            next: close + 1,
            line: last_line,
            token: Some(TokenView { kind: Kind::Str(inner), lexeme: inner, line }),
            error: None,
        }
    } else {
        Step {
            next: close,
            line: last_line,
            token: None,
            error: Some((last_line, LexicalFault::UnterminatedString)),
        }
    }
}

/// A numeral that starts at `pos`: digits, then perhaps a point and more
/// digits. A point with no digit behind it is an error, and the element
/// ends behind that point.
pub open spec fn number_step(s: Seq<char>, pos: int, line: nat) -> Step {
    let whole = run_end(s, pos + 1, CharClass::Digit);
    if whole < s.len() && s[whole] == '.' {
        if whole + 1 < s.len() && is_digit(s[whole + 1]) {
            let end = run_end(s, whole + 2, CharClass::Digit);
            token_step(s, pos, end, line, Kind::Number(s.subrange(pos, end)))
        } else {
            Step {
                next: whole + 1,
                line,
                token: None,
                error: Some((line, LexicalFault::NumberEndsWithDot)),
            }
        }
    } else {
        token_step(s, pos, whole, line, Kind::Number(s.subrange(pos, whole)))
    }
}

/// An identifier or a reserved word that starts at `pos`.
pub open spec fn word_step(s: Seq<char>, pos: int, line: nat) -> Step {
    let end = run_end(s, pos + 1, CharClass::WordPart);
    token_step(s, pos, end, line, word_kind(s.subrange(pos, end)))
}

/// The lexical element that starts at `pos`, on line `line`.
pub open spec fn lex_one(s: Seq<char>, pos: int, line: nat) -> Step
    recommends
        0 <= pos < s.len(),
{
    let c = s[pos];
    if punctuation(c) is Some {
        token_step(s, pos, pos + 1, line, punctuation(c)->0)
    } else if let Some((with_equal, alone)) = comparison_pair(c) {
        if pos + 1 < s.len() && s[pos + 1] == '=' {
            token_step(s, pos, pos + 2, line, with_equal)
        } else {
            token_step(s, pos, pos + 1, line, alone)
        }
    } else if c == '/' {
        if pos + 1 < s.len() && s[pos + 1] == '/' {
            silent_step(run_end(s, pos + 2, CharClass::IsNot('\n')), line)
        } else {
            token_step(s, pos, pos + 1, line, Kind::Slash)
        }
    } else if is_blank(c) {
        silent_step(pos + 1, line)
    } else if c == '\n' {
        silent_step(pos + 1, line + 1)
    } else if c == '"' {
        string_step(s, pos, line)
    } else if is_digit(c) {
        number_step(s, pos, line)
    } else if is_word_start(c) {
        word_step(s, pos, line)
    } else {
        Step {
            next: pos + 1,
            line,
            token: None,
            error: Some((line, LexicalFault::UnexpectedCharacter)),
        }
    }
}

/// What a scan has found: the tokens in order, and the errors in order.
pub ghost struct Lexed {
    pub tokens: Seq<TokenView>,
    pub errors: Seq<(nat, LexicalFault)>,
}

impl Lexed {
    /// No token and no error.
    pub open spec fn nothing() -> Lexed {
        Lexed { tokens: Seq::empty(), errors: Seq::empty() }
    }

    /// This result with what one more element gave.
    pub open spec fn with(self, step: Step) -> Lexed {
        Lexed {
            tokens: match step.token {
                Some(t) => self.tokens.push(t),
                None => self.tokens,
            },
            errors: match step.error {
                Some(e) => self.errors.push(e),
                None => self.errors,
            },
        }
    }
}

/// The scan of `s` from `pos` on, where `found` is what came before.
///
/// Every element takes at least one character (`lemma_lex_one_advances`),
/// so the test on where the next one starts never fails: it only shows
/// that the scan ends.
pub open spec fn lex_from(s: Seq<char>, pos: int, line: nat, found: Lexed) -> Lexed
    decreases s.len() - pos,
{
    if 0 <= pos < s.len() {
        let step = lex_one(s, pos, line);
        if pos < step.next <= s.len() {
            lex_from(s, step.next, step.line, found.with(step))
        } else {
            found
        }
    } else {
        found
    }
}

/// The scan of a whole text: lines count from 1.
pub open spec fn lex(s: Seq<char>) -> Lexed {
    lex_from(s, 0, 1, Lexed::nothing())
}

/// A run ends where the first character outside the class stands.
pub proof fn lemma_run_end(s: Seq<char>, from: int, to: int, class: CharClass)
    requires
        0 <= from <= to <= s.len(),
        forall|k: int| from <= k < to ==> class.accepts(#[trigger] s[k]),
        to < s.len() ==> !class.accepts(s[to]),
    ensures
        run_end(s, from, class) == to,
    decreases to - from,
{
    if from < to {
        lemma_run_end(s, from + 1, to, class);
    }
}

/// A run ends within the text, behind characters of the class and before
/// one that is not.
pub proof fn lemma_run_end_bounds(s: Seq<char>, from: int, class: CharClass)
    requires
        0 <= from <= s.len(),
    ensures
        from <= run_end(s, from, class) <= s.len(),
        forall|k: int| from <= k < run_end(s, from, class) ==> class.accepts(#[trigger] s[k]),
        run_end(s, from, class) < s.len() ==> !class.accepts(s[run_end(s, from, class)]),
    decreases s.len() - from,
{
    if from < s.len() && class.accepts(s[from]) {
        lemma_run_end_bounds(s, from + 1, class);
    }
}

/// Every lexical element takes at least one character and ends within
/// the text; the line never decreases, and grows by no more than the
/// characters taken.
pub proof fn lemma_lex_one_advances(s: Seq<char>, pos: int, line: nat)
    requires
        0 <= pos < s.len(),
    ensures
        pos < lex_one(s, pos, line).next <= s.len(),
        line <= lex_one(s, pos, line).line <= line + (lex_one(s, pos, line).next - pos),
{
    lemma_run_end_bounds(s, pos + 1, CharClass::IsNot('"'));
    lemma_run_end_bounds(s, pos + 1, CharClass::Digit);
    lemma_run_end_bounds(s, pos + 1, CharClass::WordPart);
    if pos + 2 <= s.len() {
        lemma_run_end_bounds(s, pos + 2, CharClass::IsNot('\n'));
    }
    let whole = run_end(s, pos + 1, CharClass::Digit);
    if whole + 2 <= s.len() {
        lemma_run_end_bounds(s, whole + 2, CharClass::Digit);
    }
    let close = run_end(s, pos + 1, CharClass::IsNot('"'));
    lemma_newlines_bound(s.subrange(pos + 1, close));
}

/// A text holds no more line feeds than characters.
pub proof fn lemma_newlines_bound(s: Seq<char>)
    ensures
        newlines(s) <= s.len(),
    decreases s.len(),
{
    if s.len() > 0 {
        lemma_newlines_bound(s.drop_last());
    }
}

} // verus!
