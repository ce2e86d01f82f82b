//! What the lexical grammar gives on whole texts of a known shape:
//! numerals, string literals, and words.

use vstd::prelude::*;
use crate::error::LexicalFault;
use crate::lexicon::{
    comparison_pair, is_blank, is_digit, is_word_part, is_word_start, lemma_newlines_bound,
    lemma_run_end, lemma_run_end_bounds, lex, lex_from, lex_one, newlines, punctuation, run_end, word_kind, CharClass,
    Lexed,
};
use crate::token::{Kind, TokenView};

verus! {

/// The scan that found one token, on line 1, and no error.
pub open spec fn one_token(kind: Kind, lexeme: Seq<char>) -> Lexed {
    Lexed { tokens: seq![TokenView { kind, lexeme, line: 1 }], errors: Seq::empty() }
}

/// Whether `s` holds only digits from `from` up to `to`.
pub open spec fn all_digits(s: Seq<char>, from: int, to: int) -> bool {
    forall|k: int| from <= k < to ==> is_digit(#[trigger] s[k])
}

/// One or more digits, or one or more digits, a point, and one or more
/// digits.
pub open spec fn is_numeral(text: Seq<char>) -> bool {
    ||| text.len() > 0 && all_digits(text, 0, text.len() as int)
    ||| exists|point: int|
        0 < point < text.len() - 1 && #[trigger] text[point] == '.' && all_digits(text, 0, point)
            && all_digits(text, point + 1, text.len() as int)
}

/// A numeral scans to exactly one `Number` token, which carries the
/// numeral as it was written, and to no error.
pub proof fn numeral_scans_to_one_number(text: Seq<char>)
    requires
        is_numeral(text),
    ensures
        lex(text) == one_token(Kind::Number(text), text),
{
    let n = text.len() as int;
    let found = one_token(Kind::Number(text), text);
    assert(is_digit(text[0]));
    assert(text.subrange(0, n) =~= text);
    if all_digits(text, 0, n) {
        lemma_run_end(text, 1, n, CharClass::Digit);
    } else {
        let point = choose|point: int|
            0 < point < n - 1 && #[trigger] text[point] == '.' && all_digits(text, 0, point)
                && all_digits(text, point + 1, n);
        lemma_run_end(text, 1, point, CharClass::Digit);
        assert(is_digit(text[point + 1]));
        lemma_run_end(text, point + 2, n, CharClass::Digit);
    }
    let step = lex_one(text, 0, 1);
    assert(step.next == n);
    assert(Lexed::nothing().with(step) =~= found);
    assert(lex_from(text, n, 1, found) == found);
}

/// Whether `s` holds no double quote.
pub open spec fn has_no_quote(s: Seq<char>) -> bool {
    forall|k: int| 0 <= k < s.len() ==> #[trigger] s[k] != '"'
}

/// A string literal whose interior holds no quote scans to exactly one
/// `Str` token, whose payload and lexeme are the interior, and to no
/// error.
pub proof fn string_scans_to_its_interior(inner: Seq<char>)
    requires
        has_no_quote(inner),
    ensures
        lex(seq!['"'] + inner + seq!['"']) == one_token(Kind::Str(inner), inner),
{
    let text = seq!['"'] + inner + seq!['"'];
    let n = text.len() as int;
    let found = one_token(Kind::Str(inner), inner);
    assert(text[0] == '"');
    assert(text[n - 1] == '"');
    assert forall|k: int| 1 <= k < n - 1 implies CharClass::IsNot('"').accepts(
        #[trigger] text[k],
    ) by {
        assert(text[k] == inner[k - 1]);
    }
    lemma_run_end(text, 1, n - 1, CharClass::IsNot('"'));
    assert(text.subrange(1, n - 1) =~= inner);
    let step = lex_one(text, 0, 1);
    assert(step.next == n);
    assert(Lexed::nothing().with(step) =~= found);
    lemma_newlines_bound(inner);
    assert(lex_from(text, n, step.line, found) == found);
}

/// A string literal that is never closed yields no token, and one error
/// on the line where the text ends.
pub proof fn unterminated_string_yields_no_token(inner: Seq<char>)
    requires
        has_no_quote(inner),
    ensures
        lex(seq!['"'] + inner) == (Lexed {
            tokens: Seq::empty(),
            errors: seq![(1 + newlines(inner), LexicalFault::UnterminatedString)],
        }),
{
    let text = seq!['"'] + inner;
    let n = text.len() as int;
    let found = Lexed {
        tokens: Seq::empty(),
        errors: seq![(1 + newlines(inner), LexicalFault::UnterminatedString)],
    };
    assert(text[0] == '"');
    assert forall|k: int| 1 <= k < n implies CharClass::IsNot('"').accepts(#[trigger] text[k]) by {
        assert(text[k] == inner[k - 1]);
    }
    lemma_run_end(text, 1, n, CharClass::IsNot('"'));
    assert(text.subrange(1, n) =~= inner);
    let step = lex_one(text, 0, 1);
    assert(step.next == n);
    assert(Lexed::nothing().with(step) =~= found);
    assert(lex_from(text, n, step.line, found) == found);
}

/// A character at which the scanner starts a word: one that may start an
/// identifier and is neither punctuation, an operator, blank, a quote nor
/// a digit.
pub open spec fn begins_word(c: char) -> bool {
    &&& is_word_start(c)
    &&& punctuation(c) is None
    &&& comparison_pair(c) is None
    &&& c != '/'
    &&& !is_blank(c)
    &&& c != '\n'
    &&& c != '"'
    &&& !is_digit(c)
}

/// A character that starts a word, then characters that continue one.
pub open spec fn is_word(text: Seq<char>) -> bool {
    &&& text.len() > 0
    &&& begins_word(text[0])
    &&& forall|k: int| 1 <= k < text.len() ==> is_word_part(#[trigger] text[k])
}

/// A word scans to exactly one token: of the kind of the reserved word
/// that it is, else an `Identifier`.
pub proof fn word_scans_to_one_token(text: Seq<char>)
    requires
        is_word(text),
    ensures
        lex(text) == one_token(word_kind(text), text),
{
    let n = text.len() as int;
    let found = one_token(word_kind(text), text);
    lemma_run_end(text, 1, n, CharClass::WordPart);
    assert(text.subrange(0, n) =~= text);
    let step = lex_one(text, 0, 1);
    assert(step.next == n);
    assert(Lexed::nothing().with(step) =~= found);
    assert(lex_from(text, n, 1, found) == found);
}

/// Whether `text` is one of the sixteen reserved words.
pub open spec fn is_reserved(text: Seq<char>) -> bool {
    ||| text == "and"@
    ||| text == "class"@
    ||| text == "else"@
    ||| text == "false"@
    ||| text == "for"@
    ||| text == "fun"@
    ||| text == "if"@
    ||| text == "nil"@
    ||| text == "or"@
    ||| text == "print"@
    ||| text == "return"@
    ||| text == "super"@
    ||| text == "this"@
    ||| text == "true"@
    ||| text == "var"@
    ||| text == "while"@
}

/// A word that is not reserved is an identifier.
pub proof fn other_words_are_identifiers(text: Seq<char>)
    requires
        is_word(text),
        !is_reserved(text),
    ensures
        lex(text) == one_token(Kind::Identifier, text),
{
    word_scans_to_one_token(text);
}

/// Each reserved word scans to one token of its own kind.
pub proof fn reserved_words_scan_to_their_kinds()
    ensures
        lex("and"@) == one_token(Kind::And, "and"@),
        lex("class"@) == one_token(Kind::Class, "class"@),
        lex("else"@) == one_token(Kind::Else, "else"@),
        lex("false"@) == one_token(Kind::False, "false"@),
        lex("for"@) == one_token(Kind::For, "for"@),
        lex("fun"@) == one_token(Kind::Fun, "fun"@),
        lex("if"@) == one_token(Kind::If, "if"@),
        lex("nil"@) == one_token(Kind::Nil, "nil"@),
        lex("or"@) == one_token(Kind::Or, "or"@),
        lex("print"@) == one_token(Kind::Print, "print"@),
        lex("return"@) == one_token(Kind::Return, "return"@),
        lex("super"@) == one_token(Kind::Super, "super"@),
        lex("this"@) == one_token(Kind::This, "this"@),
        lex("true"@) == one_token(Kind::True, "true"@),
        lex("var"@) == one_token(Kind::Var, "var"@),
        lex("while"@) == one_token(Kind::While, "while"@),
{
    reveal_strlit("and");
    reveal_strlit("class");
    reveal_strlit("else");
    reveal_strlit("false");
    reveal_strlit("for");
    reveal_strlit("fun");
    reveal_strlit("if");
    reveal_strlit("nil");
    reveal_strlit("or");
    reveal_strlit("print");
    reveal_strlit("return");
    reveal_strlit("super");
    reveal_strlit("this");
    reveal_strlit("true");
    reveal_strlit("var");
    reveal_strlit("while");
    assert(word_kind("and"@) == Kind::And);
    word_scans_to_one_token("and"@);
    assert(word_kind("class"@) == Kind::Class);
    word_scans_to_one_token("class"@);
    assert(word_kind("else"@) == Kind::Else);
    word_scans_to_one_token("else"@);
    assert(word_kind("false"@) == Kind::False);
    word_scans_to_one_token("false"@);
    assert(word_kind("for"@) == Kind::For);
    word_scans_to_one_token("for"@);
    assert(word_kind("fun"@) == Kind::Fun);
    word_scans_to_one_token("fun"@);
    assert(word_kind("if"@) == Kind::If);
    word_scans_to_one_token("if"@);
    assert(word_kind("nil"@) == Kind::Nil);
    word_scans_to_one_token("nil"@);
    assert(word_kind("or"@) == Kind::Or);
    word_scans_to_one_token("or"@);
    assert(word_kind("print"@) == Kind::Print);
    word_scans_to_one_token("print"@);
    assert(word_kind("return"@) == Kind::Return);
    word_scans_to_one_token("return"@);
    assert(word_kind("super"@) == Kind::Super);
    word_scans_to_one_token("super"@);
    assert(word_kind("this"@) == Kind::This);
    word_scans_to_one_token("this"@);
    assert(word_kind("true"@) == Kind::True);
    word_scans_to_one_token("true"@);
    assert(word_kind("var"@) == Kind::Var);
    word_scans_to_one_token("var"@);
    assert(word_kind("while"@) == Kind::While);
    word_scans_to_one_token("while"@);
}

/// A reserved word scans to one token, and never to an `Identifier`.
pub proof fn reserved_word_is_never_an_identifier(text: Seq<char>)
    requires
        is_reserved(text),
    ensures
        lex(text) == one_token(word_kind(text), text),
        !(word_kind(text) is Identifier),
{
    reserved_words_scan_to_their_kinds();
}

/// A run in the rear part of a text ends where it ends in that part
/// alone.
pub proof fn lemma_run_end_in_rear(front: Seq<char>, rear: Seq<char>, i: int, class: CharClass)
    requires
        0 <= i <= rear.len(),
    ensures
        run_end(front + rear, front.len() + i, class) == front.len() + run_end(rear, i, class),
    decreases rear.len() - i,
{
    if i < rear.len() {
        assert((front + rear)[front.len() + i] == rear[i]);
        if class.accepts(rear[i]) {
            lemma_run_end_in_rear(front, rear, i + 1, class);
        }
    }
}

/// A lexical element in the rear part of a text is the element that the
/// rear part alone has there: the same token or error, as far behind.
pub proof fn lemma_lex_one_in_rear(front: Seq<char>, rear: Seq<char>, i: int, line: nat)
    requires
        0 <= i < rear.len(),
    ensures
        lex_one(front + rear, front.len() + i, line).next == front.len() + lex_one(
            rear,
            i,
            line,
        ).next,
        lex_one(front + rear, front.len() + i, line).line == lex_one(rear, i, line).line,
        lex_one(front + rear, front.len() + i, line).token == lex_one(rear, i, line).token,
        lex_one(front + rear, front.len() + i, line).error == lex_one(rear, i, line).error,
{
    let s = front + rear;
    let n = front.len() as int;
    assert(s[n + i] == rear[i]);
    if i + 1 < rear.len() {
        assert(s[n + i + 1] == rear[i + 1]);
    }
    lemma_run_end_in_rear(front, rear, i + 1, CharClass::IsNot('"'));
    lemma_run_end_in_rear(front, rear, i + 1, CharClass::Digit);
    lemma_run_end_in_rear(front, rear, i + 1, CharClass::WordPart);
    lemma_run_end_bounds(rear, i + 1, CharClass::IsNot('"'));
    lemma_run_end_bounds(rear, i + 1, CharClass::Digit);
    lemma_run_end_bounds(rear, i + 1, CharClass::WordPart);
    if i + 2 <= rear.len() {
        lemma_run_end_in_rear(front, rear, i + 2, CharClass::IsNot('\n'));
    }
    let close = run_end(rear, i + 1, CharClass::IsNot('"'));
    assert(s.subrange(n + i + 1, n + close) =~= rear.subrange(i + 1, close));
    let whole = run_end(rear, i + 1, CharClass::Digit);
    assert(s.subrange(n + i, n + whole) =~= rear.subrange(i, whole));
    if whole < rear.len() {
        assert(s[n + whole] == rear[whole]);
        if whole + 1 < rear.len() {
            assert(s[n + whole + 1] == rear[whole + 1]);
            lemma_run_end_in_rear(front, rear, whole + 2, CharClass::Digit);
            lemma_run_end_bounds(rear, whole + 2, CharClass::Digit);
            let end = run_end(rear, whole + 2, CharClass::Digit);
            assert(s.subrange(n + i, n + end) =~= rear.subrange(i, end));
        }
    }
    let word = run_end(rear, i + 1, CharClass::WordPart);
    assert(s.subrange(n + i, n + word) =~= rear.subrange(i, word));
    assert(s.subrange(n + i, n + i + 1) =~= rear.subrange(i, i + 1));
    if i + 2 <= rear.len() {
        assert(s.subrange(n + i, n + i + 2) =~= rear.subrange(i, i + 2));
    }
}

/// Scanning looks only ahead: from a position on, the scan of a text is
/// the scan of the rest of the text, whatever stands before it.
pub proof fn scan_depends_on_the_rest_alone(
    front: Seq<char>,
    rear: Seq<char>,
    i: int,
    line: nat,
    found: Lexed,
)
    requires
        0 <= i <= rear.len(),
    ensures
        lex_from(front + rear, front.len() + i, line, found) == lex_from(rear, i, line, found),
    decreases rear.len() - i,
{
    if i < rear.len() {
        lemma_lex_one_in_rear(front, rear, i, line);
        let step = lex_one(rear, i, line);
        let shifted = lex_one(front + rear, front.len() + i, line);
        assert(found.with(shifted) == found.with(step));
        if i < step.next <= rear.len() {
            scan_depends_on_the_rest_alone(front, rear, step.next, step.line, found.with(step));
        }
    }
}

/// Blanks before a text change nothing in its scan: spacing gives no
/// token and moves none to another line.
pub proof fn leading_blank_changes_nothing(c: char, text: Seq<char>)
    requires
        is_blank(c),
    ensures
        lex(seq![c] + text) == lex(text),
{
    let s = seq![c] + text;
    assert(s[0] == c);
    let step = lex_one(s, 0, 1);
    assert(Lexed::nothing().with(step) == Lexed::nothing());
    scan_depends_on_the_rest_alone(seq![c], text, 0, 1, Lexed::nothing());
}

} // verus!
