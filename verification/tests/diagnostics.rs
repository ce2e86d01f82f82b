use lox::error::{error, token_error, LexicalFault, ParseFault, SyntaxError};
use lox::text::{chars_of, push_decimal};
use lox::token::{Token, TokenType};

#[test]
fn error_names_the_line_and_the_message() {
    assert_eq!(error(1, "Unexpected character."), "[line 1] Error: Unexpected character.");
    assert_eq!(error(0, ""), "[line 0] Error: ");
    assert_eq!(error(1234567890, "x"), "[line 1234567890] Error: x");
}

#[test]
fn token_error_names_the_lexeme() {
    let token = Token::new(TokenType::Identifier, "foo".to_string(), 12);
    assert_eq!(token_error(&token, "Expected expression."), "[line 12] Error at 'foo': Expected expression.");
}

#[test]
fn token_error_at_the_end_marker_says_so() {
    let token = Token::new(TokenType::EOF, String::new(), 3);
    assert_eq!(token_error(&token, "Expected expression."), "[line 3] Error at end: Expected expression.");
}

#[test]
fn faults_have_their_messages() {
    assert_eq!(LexicalFault::UnexpectedCharacter.message(), "Unexpected character.");
    assert_eq!(LexicalFault::UnterminatedString.message(), "Unterminated string.");
    assert_eq!(LexicalFault::NumberEndsWithDot.message(), "Number cannot end with '.' operator");
    assert_eq!(ParseFault::ExpectedExpression.message(), "Expected expression.");
    assert_eq!(ParseFault::ExpectedRightParen.message(), "Expect ')' after expression.");
    assert_eq!(ParseFault::UnexpectedExpression.message(), "Unexpected Expression");
}

#[test]
fn syntax_error_reports_its_line() {
    let e = SyntaxError { line: 7, fault: LexicalFault::UnterminatedString };
    assert_eq!(e.report(), "[line 7] Error: Unterminated string.");
}

#[test]
fn decimal_digits_of_a_number() {
    for n in [0usize, 9, 10, 99, 100, 101, 65535, usize::MAX] {
        let mut s = String::from("#");
        push_decimal(&mut s, n);
        assert_eq!(s, format!("#{}", n));
    }
}

#[test]
fn characters_of_a_text() {
    assert_eq!(chars_of("aé\n"), vec!['a', 'é', '\n']);
    assert!(chars_of("").is_empty());
}
