//! The scanner: one pass over the text, left to right, with one character
//! of lookahead. Errors are collected and scanning goes on behind them.

use vstd::prelude::*;
use crate::error::{LexicalFault, SyntaxError};
use crate::lexicon::{
    lemma_lex_one_advances, lemma_newlines_bound, lemma_run_end, lemma_run_end_bounds, lex,
    lex_from, lex_one, newlines, run_end, starts_word, word_kind, CharClass, Lexed, Step,
};
use crate::text::{chars_of, push_char};
use crate::token::{token_views, Kind, NextTokenInfo, Token, TokenType, TokenView};

verus! {

/// A scanner over one text. It keeps the tokens and the errors that it
/// has found, the span of the element that it is reading, and the line
/// that it is on.
pub struct Scanner {
    source: Vec<char>,
    tokens: Vec<Token>,
    errors: Vec<SyntaxError>,
    start: usize,
    current: usize,
    /// How many line feeds stand before `current`.
    lines_before: usize,
    /// How many line feeds stand before `start`.
    lines_before_start: usize,
}

/// The mathematical state of a scanner: the text, what was found so far,
/// where the pending element starts and on which line, and where the next
/// character to read stands and on which line.
pub ghost struct ScannerView {
    pub source: Seq<char>,
    pub found: Lexed,
    pub start: int,
    pub start_line: nat,
    pub current: int,
    pub line: nat,
}

impl ScannerView {
    /// The state behind one lexical element.
    pub open spec fn after(self, step: Step) -> ScannerView {
        ScannerView { found: self.found.with(step), current: step.next, line: step.line, ..self }
    }

    /// The pending element lies within the text, and no more line feeds
    /// were counted than characters were read.
    pub open spec fn wf(self) -> bool {
        &&& 0 <= self.start <= self.current <= self.source.len()
        &&& 1 <= self.start_line <= self.start + 1
        &&& 0 <= self.line - self.start_line <= self.current - self.start
    }

    /// The text of the pending element.
    pub open spec fn pending(self) -> Seq<char> {
        self.source.subrange(self.start, self.current)
    }

    /// This state with one more token, on the line where the pending
    /// element starts.
    pub open spec fn with_token(self, kind: Kind, lexeme: Seq<char>) -> ScannerView {
        ScannerView {
            found: Lexed {
                tokens: self.found.tokens.push(
                    TokenView { kind, lexeme, line: self.start_line },
                ),
                ..self.found
            },
            ..self
        }
    }

    /// This state with one more error, on the current line.
    pub open spec fn with_error(self, fault: LexicalFault) -> ScannerView {
        ScannerView {
            found: Lexed { errors: self.found.errors.push((self.line, fault)), ..self.found },
            ..self
        }
    }
}

/// The mathematical values of a sequence of lexical errors, in order.
pub open spec fn error_views(errors: Seq<SyntaxError>) -> Seq<(nat, LexicalFault)> {
    errors.map_values(|e: SyntaxError| (e.line as nat, e.fault))
}

impl View for Scanner {
    type V = ScannerView;

    closed spec fn view(&self) -> ScannerView {
        ScannerView {
            source: self.source@,
            found: Lexed { tokens: token_views(self.tokens@), errors: error_views(self.errors@) },
            start: self.start as int,
            start_line: self.lines_before_start as nat + 1,
            current: self.current as int,
            line: self.lines_before as nat + 1,
        }
    }
}

impl Scanner {
    /// A scanner at the start of `source`, on line 1, with nothing found.
    pub fn new(source: &String) -> (r: Scanner)
        ensures
            r@.wf(),
            r@ == (ScannerView {
                source: source@,
                found: Lexed::nothing(),
                start: 0,
                start_line: 1,
                current: 0,
                line: 1,
            }),
    {
        let r = Scanner {
            source: chars_of(source.as_str()),
            tokens: Vec::new(),
            errors: Vec::new(),
            start: 0,
            current: 0,
            lines_before: 0,
            lines_before_start: 0,
        };
        assert(r@.found.tokens =~= Seq::empty());
        assert(r@.found.errors =~= Seq::empty());
        r
    }

    /// Scans the rest of the text: every element from the current position
    /// to the end, each token and each error added behind those found
    /// before.
    pub fn scan_tokens(&mut self)
        requires
            old(self)@.wf(),
        ensures
            final(self)@.wf(),
            final(self)@.source == old(self)@.source,
            final(self)@.current == old(self)@.source.len(),
            final(self)@.found == lex_from(
                old(self)@.source,
                old(self)@.current,
                old(self)@.line,
                old(self)@.found,
            ),
    {
        while self.current < self.source.len()
            invariant
                self@.wf(),
                self@.source == old(self)@.source,
                lex_from(self@.source, self@.current, self@.line, self@.found) == lex_from(
                    old(self)@.source,
                    old(self)@.current,
                    old(self)@.line,
                    old(self)@.found,
                ),
            decreases self@.source.len() - self@.current,
        {
            self.start = self.current;
            self.lines_before_start = self.lines_before;
            proof {
                lemma_lex_one_advances(self@.source, self@.current, self@.line);
            }
            self.scan_token();
        }
    }

    /// The tokens found so far, in order.
    pub fn get_tokens(&self) -> (r: &Vec<Token>)
        ensures
            token_views(r@) == self@.found.tokens,
    {
        &self.tokens
    }

    /// The lexical errors found so far, in order.
    pub fn get_errors(&self) -> (r: &Vec<SyntaxError>)
        ensures
            error_views(r@) == self@.found.errors,
    {
        &self.errors
    }

    /// Scans the one lexical element that starts at the current character.
    fn scan_token(&mut self)
        requires
            old(self)@.wf(),
            old(self)@.start == old(self)@.current,
            old(self)@.start_line == old(self)@.line,
            old(self)@.current < old(self)@.source.len(),
        ensures
            final(self)@.wf(),
            final(self)@ == old(self)@.after(
                lex_one(old(self)@.source, old(self)@.current, old(self)@.line),
            ),
    {
        proof {
            lemma_lex_one_advances(self@.source, self@.current, self@.line);
            lemma_run_end_bounds(self@.source, self@.current + 1, CharClass::IsNot('"'));
        }
        let c = self.source[self.current];
        self.advance();
        match c {
            '(' => self.add_token(TokenType::LeftParen),
            ')' => self.add_token(TokenType::RightParen),
            '{' => self.add_token(TokenType::LeftBrace),
            '}' => self.add_token(TokenType::RightBrace),
            ',' => self.add_token(TokenType::Comma),
            '.' => self.add_token(TokenType::Dot),
            '-' => self.add_token(TokenType::Minus),
            '+' => self.add_token(TokenType::Plus),
            ';' => self.add_token(TokenType::SemiColon),
            '*' => self.add_token(TokenType::Star),
            '!' => self.add_next_token(NextTokenInfo('=', TokenType::BangEqual, TokenType::Bang)),
            '=' => self.add_next_token(
                NextTokenInfo('=', TokenType::EqualEqual, TokenType::Equal),
            ),
            '<' => self.add_next_token(NextTokenInfo('=', TokenType::LessEqual, TokenType::Less)),
            '>' => self.add_next_token(
                NextTokenInfo('=', TokenType::GreaterEqual, TokenType::Greater),
            ),
            '/' => match self.check_next_symbol(CharClass::Is('/')) {
                Some(true) => self.skip_run(CharClass::IsNot('\n')),
                _ => self.add_token(TokenType::Slash),
            },
            ' ' | '\r' | '\t' => (),
            '\n' => {
                self.lines_before += 1;
            },
            '"' => {
                let new_string = self.make_string();
                if let Some(s) = new_string {
                    self.add_token(s);
                }
            },
            c => {
                if c >= '0' && c <= '9' {
                    let new_number = self.make_number();
                    if let Some(num) = new_number {
                        self.add_token(num);
                    }
                } else if starts_word(c) {
                    let new_id = self.make_identifier();
                    self.add_token(new_id);
                } else {
                    self.add_error(LexicalFault::UnexpectedCharacter);
                }
            },
        }
    }

    /// Takes the next character, if there is one.
    fn advance(&mut self) -> (c: Option<char>)
        requires
            old(self)@.wf(),
        ensures
            old(self)@.current < old(self)@.source.len() ==> c == Some(
                old(self)@.source[old(self)@.current],
            ) && final(self)@ == (ScannerView {
                current: old(self)@.current + 1,
                ..old(self)@
            }),
            old(self)@.current >= old(self)@.source.len() ==> c is None && final(self)@ == old(
                self,
            )@,
    {
        if self.current < self.source.len() {
            let c = self.source[self.current];
            self.current += 1;
            Some(c)
        } else {
            None
        }
    }

    /// Looks at the next character: `None` at the end of the text, else
    /// whether it is of `class`, and takes it if it is.
    fn check_next_symbol(&mut self, class: CharClass) -> (r: Option<bool>)
        requires
            old(self)@.wf(),
        ensures
            old(self)@.current >= old(self)@.source.len() ==> r is None && final(self)@ == old(
                self,
            )@,
            old(self)@.current < old(self)@.source.len() ==> r == Some(
                class.accepts(old(self)@.source[old(self)@.current]),
            ),
            r == Some(true) ==> final(self)@ == (ScannerView {
                current: old(self)@.current + 1,
                ..old(self)@
            }),
            r == Some(false) ==> final(self)@ == old(self)@,
    {
        if self.current < self.source.len() {
            if class.includes(self.source[self.current]) {
                self.advance();
                Some(true)
            } else {
                Some(false)
            }
        } else {
            None
        }
    }

    /// Takes the longest run of characters of `class`.
    fn skip_run(&mut self, class: CharClass)
        requires
            old(self)@.wf(),
        ensures
            final(self)@ == (ScannerView {
                current: run_end(old(self)@.source, old(self)@.current, class),
                ..old(self)@
            }),
            old(self)@.current <= final(self)@.current <= old(self)@.source.len(),
    {
        let ghost from = self@.current;
        loop
            invariant
                self@.wf(),
                old(self)@.wf(),
                from == old(self)@.current,
                from <= self@.current,
                self@ == (ScannerView { current: self@.current, ..old(self)@ }),
                forall|k: int|
                    from <= k < self@.current ==> class.accepts(#[trigger] old(self)@.source[k]),
            decreases self@.source.len() - self@.current,
        {
            match self.check_next_symbol(class) {
                Some(true) => {},
                _ => {
                    proof {
                        lemma_run_end(self@.source, from, self@.current, class);
                    }
                    return ;
                },
            }
        }
    }

    /// The text from `from` up to `to`.
    fn text(&self, from: usize, to: usize) -> (r: String)
        requires
            from <= to <= self@.source.len(),
        ensures
            r@ == self@.source.subrange(from as int, to as int),
    {
        let mut r = String::new();
        let mut i: usize = from;
        while i < to
            invariant
                from <= i <= to <= self.source@.len(),
                r@ == self.source@.subrange(from as int, i as int),
            decreases to - i,
        {
            push_char(&mut r, self.source[i]);
            i += 1;
            assert(self.source@.subrange(from as int, i as int) =~= self.source@.subrange(
                from as int,
                i - 1,
            ).push(self.source@[i - 1]));
        }
        r
    }

    /// Adds a token of the given kind for the pending element, on the line
    /// where the element starts. The lexeme of a string is what stands
    /// between its quotes.
    fn add_token(&mut self, token_type: TokenType)
        requires
            old(self)@.wf(),
            old(self)@.start < old(self)@.current,
            token_type is Str ==> old(self)@.start + 2 <= old(self)@.current,
        ensures
            final(self)@ == old(self)@.with_token(
                token_type@,
                if token_type is Str {
                    old(self)@.source.subrange(old(self)@.start + 1, old(self)@.current - 1)
                } else {
                    old(self)@.pending()
                },
            ),
    {
        let text = if let TokenType::Str(_) = token_type {
            self.text(self.start + 1, self.current - 1)
        } else {
            self.text(self.start, self.current)
        };
        let token = Token::new(token_type, text, self.lines_before_start + 1);
        self.tokens.push(token);
        assert(token_views(self.tokens@) =~= token_views(old(self).tokens@).push(token@));
    }

    /// Records an error on the current line.
    fn add_error(&mut self, fault: LexicalFault)
        requires
            old(self)@.wf(),
            old(self)@.line <= old(self)@.current,
        ensures
            final(self)@ == old(self)@.with_error(fault),
    {
        let e = SyntaxError { line: self.lines_before + 1, fault };
        self.errors.push(e);
        assert(error_views(self.errors@) =~= error_views(old(self).errors@).push(
            (e.line as nat, e.fault),
        ));
    }

    /// Adds a token whose kind depends on the next character.
    fn add_next_token(&mut self, next_token: NextTokenInfo)
        requires
            old(self)@.wf(),
            old(self)@.start < old(self)@.current,
            !(next_token.1 is Str),
            !(next_token.2 is Str),
        ensures
            ({
                let before = old(self)@;
                let taken = before.current < before.source.len() && before.source[before.current]
                    == next_token.0;
                let behind = ScannerView {
                    current: if taken { before.current + 1 } else { before.current },
                    ..before
                };
                final(self)@ == behind.with_token(
                    if taken { next_token.1@ } else { next_token.2@ },
                    behind.pending(),
                )
            }),
    {
        let NextTokenInfo(expected, token_type1, token_type2) = next_token;
        if let Some(true) = self.check_next_symbol(CharClass::Is(expected)) {
            self.add_token(token_type1);
        } else {
            self.add_token(token_type2);
        }
    }

    /// Scans a string literal behind its opening quote.
    fn make_string(&mut self) -> (r: Option<TokenType>)
        requires
            old(self)@.wf(),
            old(self)@.current == old(self)@.start + 1,
            old(self)@.line == old(self)@.start_line,
        ensures
            final(self)@.wf(),
            ({
                let before = old(self)@;
                let close = run_end(before.source, before.current, CharClass::IsNot('"'));
                let inner = before.source.subrange(before.current, close);
                let behind = ScannerView { line: before.line + newlines(inner), ..before };
                if close < before.source.len() {
                    &&& r is Some
                    &&& r->0@ == Kind::Str(inner)
                    &&& final(self)@ == (ScannerView { current: close + 1, ..behind })
                } else {
                    &&& r is None
                    &&& final(self)@ == (ScannerView { current: close, ..behind }).with_error(
                        LexicalFault::UnterminatedString,
                    )
                }
            }),
    {
        let ghost from = self@.current;
        let ghost before = self@;
        proof {
            assert(before.source.subrange(from, from) =~= Seq::empty());
        }
        loop
            invariant
                self@.wf(),
                before == old(self)@,
                before.wf(),
                from == before.current,
                from == before.start + 1,
                before.line == before.start_line,
                from <= self@.current,
                self@ == (ScannerView {
                    current: self@.current,
                    line: before.line + newlines(before.source.subrange(from, self@.current)),
                    ..before
                }),
                forall|k: int| from <= k < self@.current ==> #[trigger] before.source[k] != '"',
            decreases self@.source.len() - self@.current,
        {
            match self.check_next_symbol(CharClass::Is('"')) {
                None => {
                    proof {
                        lemma_run_end(self@.source, from, self@.current, CharClass::IsNot('"'));
                        lemma_newlines_bound(before.source.subrange(from, self@.current));
                    }
                    self.add_error(LexicalFault::UnterminatedString);
                    return None;
                },
                Some(true) => {
                    proof {
                        lemma_run_end(
                            self@.source,
                            from,
                            self@.current - 1,
                            CharClass::IsNot('"'),
                        );
                    }
                    let literal_value = self.text(self.start + 1, self.current - 1);
                    return Some(TokenType::Str(literal_value));
                },
                Some(false) => {
                    let ghost at = self@.current;
                    proof {
                        assert(before.source.subrange(from, at + 1).drop_last()
                            =~= before.source.subrange(from, at));
                        lemma_newlines_bound(before.source.subrange(from, at + 1));
                    }
                    if let Some(true) = self.check_next_symbol(CharClass::Is('\n')) {
                        self.lines_before += 1;
                    } else {
                        self.advance();
                    }
                },
            }
        }
    }

    /// Scans a numeral behind its first digit.
    fn make_number(&mut self) -> (r: Option<TokenType>)
        requires
            old(self)@.wf(),
            old(self)@.current == old(self)@.start + 1,
        ensures
            final(self)@.wf(),
            ({
                let before = old(self)@;
                let s = before.source;
                let whole = run_end(s, before.current, CharClass::Digit);
                if whole < s.len() && s[whole] == '.' {
                    if whole + 1 < s.len() && CharClass::Digit.accepts(s[whole + 1]) {
                        let end = run_end(s, whole + 2, CharClass::Digit);
                        &&& r is Some
                        &&& r->0@ == Kind::Number(s.subrange(before.start, end))
                        &&& final(self)@ == (ScannerView { current: end, ..before })
                    } else {
                        &&& r is None
                        &&& final(self)@ == (ScannerView {
                            current: whole + 1,
                            ..before
                        }).with_error(LexicalFault::NumberEndsWithDot)
                    }
                } else {
                    &&& r is Some
                    &&& r->0@ == Kind::Number(s.subrange(before.start, whole))
                    &&& final(self)@ == (ScannerView { current: whole, ..before })
                }
            }),
    {
        self.skip_run(CharClass::Digit);
        if let Some(true) = self.check_next_symbol(CharClass::Is('.')) {
            match self.check_next_symbol(CharClass::Digit) {
                Some(true) => {
                    self.skip_run(CharClass::Digit);
                },
                _ => {
                    self.add_error(LexicalFault::NumberEndsWithDot);
                    return None;
                },
            }
        }
        let literal_value = self.text(self.start, self.current);
        Some(TokenType::Number(literal_value))
    }

    /// Whether the pending element is the text `word`.
    fn is_word(&self, word: &str) -> (r: bool)
        requires
            self@.wf(),
        ensures
            r == (self@.pending() == word@),
    {
        let n = word.unicode_len();
        if n != self.current - self.start {
            return false;
        }
        let mut i: usize = 0;
        while i < n
            invariant
                self@.wf(),
                n == word@.len(),
                n == self@.current - self@.start,
                i <= n,
                forall|k: int| 0 <= k < i ==> self@.pending()[k] == word@[k],
            decreases n - i,
        {
            if self.source[self.start + i] != word.get_char(i) {
                assert(self@.pending()[i as int] != word@[i as int]);
                return false;
            }
            i += 1;
        }
        assert(self@.pending() =~= word@);
        true
    }

    /// Scans an identifier or a reserved word behind its first character.
    fn make_identifier(&mut self) -> (r: TokenType)
        requires
            old(self)@.wf(),
        ensures
            final(self)@.wf(),
            final(self)@ == (ScannerView {
                current: run_end(old(self)@.source, old(self)@.current, CharClass::WordPart),
                ..old(self)@
            }),
            r@ == word_kind(final(self)@.pending()),
    {
        self.skip_run(CharClass::WordPart);
        if self.is_word("and") {
            TokenType::And
        } else if self.is_word("class") {
            TokenType::Class
        } else if self.is_word("else") {
            TokenType::Else
        } else if self.is_word("false") {
            TokenType::False
        } else if self.is_word("for") {
            TokenType::For
        } else if self.is_word("fun") {
            TokenType::Fun
        } else if self.is_word("if") {
            TokenType::If
        } else if self.is_word("nil") {
            TokenType::Nil
        } else if self.is_word("or") {
            TokenType::Or
        } else if self.is_word("print") {
            TokenType::Print
        } else if self.is_word("return") {
            TokenType::Return
        } else if self.is_word("super") {
            TokenType::Super
        } else if self.is_word("this") {
            TokenType::This
        } else if self.is_word("true") {
            TokenType::True
        } else if self.is_word("var") {
            TokenType::Var
        } else if self.is_word("while") {
            TokenType::While
        } else {
            TokenType::Identifier
        }
    }
}

/// Scans a whole text: its tokens in order, and its lexical errors in
/// order. Scanning always reaches the end of the text; no end marker is
/// added behind the last token.
pub fn scan(source: &str) -> (r: (Vec<Token>, Vec<SyntaxError>))
    ensures
        token_views(r.0@) == lex(source@).tokens,
        error_views(r.1@) == lex(source@).errors,
{
    let mut scanner = Scanner {
        source: chars_of(source),
        tokens: Vec::new(),
        errors: Vec::new(),
        start: 0,
        current: 0,
        lines_before: 0,
        lines_before_start: 0,
    };
    assert(scanner@.found.tokens =~= Seq::empty());
    assert(scanner@.found.errors =~= Seq::empty());
    scanner.scan_tokens();
    (scanner.tokens, scanner.errors)
}

} // verus!
