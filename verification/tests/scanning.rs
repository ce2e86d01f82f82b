use lox::error::{LexicalFault, SyntaxError};
use lox::scanner::Scanner;
use lox::token::{Token, TokenType};

fn scan(source: &str) -> (Vec<Token>, Vec<SyntaxError>) {
    let text = source.to_string();
    let mut scanner = Scanner::new(&text);
    scanner.scan_tokens();
    (scanner.get_tokens().clone(), scanner.get_errors().clone())
}

fn kinds(source: &str) -> Vec<TokenType> {
    scan(source).0.into_iter().map(|t| t.token_type).collect()
}

fn lexemes(source: &str) -> Vec<String> {
    scan(source).0.into_iter().map(|t| t.lexeme).collect()
}

#[test]
fn empty_text_gives_nothing() {
    let (tokens, errors) = scan("");
    assert!(tokens.is_empty());
    assert!(errors.is_empty());
}

#[test]
fn punctuation_maps_to_its_kind() {
    assert_eq!(
        kinds("(){},.-+;*"),
        vec![
            TokenType::LeftParen,
            TokenType::RightParen,
            TokenType::LeftBrace,
            TokenType::RightBrace,
            TokenType::Comma,
            TokenType::Dot,
            TokenType::Minus,
            TokenType::Plus,
            TokenType::SemiColon,
            TokenType::Star,
        ]
    );
    assert_eq!(lexemes("(){},.-+;*"), vec!["(", ")", "{", "}", ",", ".", "-", "+", ";", "*"]);
}

#[test]
fn operators_take_the_longest_match() {
    assert_eq!(
        kinds("! != = == < <= > >="),
        vec![
            TokenType::Bang,
            TokenType::BangEqual,
            TokenType::Equal,
            TokenType::EqualEqual,
            TokenType::Less,
            TokenType::LessEqual,
            TokenType::Greater,
            TokenType::GreaterEqual,
        ]
    );
    assert_eq!(lexemes("!="), vec!["!="]);
    assert_eq!(kinds("==="), vec![TokenType::EqualEqual, TokenType::Equal]);
    assert_eq!(kinds("!"), vec![TokenType::Bang]);
}

#[test]
fn slash_alone_is_a_token() {
    assert_eq!(kinds("1 / 2"), vec![
        TokenType::Number(String::new()),
        TokenType::Slash,
        TokenType::Number(String::new()),
    ]);
    let (tokens, errors) = scan("/");
    assert_eq!(tokens.len(), 1);
    assert_eq!(tokens[0].token_type, TokenType::Slash);
    assert!(errors.is_empty());
}

#[test]
fn comment_runs_to_the_end_of_the_line() {
    let (tokens, errors) = scan("1 // two three\n4");
    assert!(errors.is_empty());
    assert_eq!(tokens.len(), 2);
    assert_eq!(tokens[0].lexeme, "1");
    assert_eq!(tokens[0].line, 1);
    assert_eq!(tokens[1].lexeme, "4");
    assert_eq!(tokens[1].line, 2);
    let (tokens, errors) = scan("// nothing else");
    assert!(tokens.is_empty());
    assert!(errors.is_empty());
}

#[test]
fn blanks_give_no_token_and_newlines_count_lines() {
    let (tokens, errors) = scan(" \t\r\n+\n\n-");
    assert!(errors.is_empty());
    assert_eq!(tokens.len(), 2);
    assert_eq!(tokens[0].token_type, TokenType::Plus);
    assert_eq!(tokens[0].line, 2);
    assert_eq!(tokens[1].token_type, TokenType::Minus);
    assert_eq!(tokens[1].line, 4);
}

#[test]
fn numeral_gives_one_number_token() {
    for text in ["0", "7", "123", "1.5", "007.250", "3.14159"] {
        let (tokens, errors) = scan(text);
        assert!(errors.is_empty());
        assert_eq!(tokens.len(), 1);
        assert_eq!(tokens[0].lexeme, text);
        assert_eq!(tokens[0].line, 1);
        match &tokens[0].token_type {
            TokenType::Number(numeral) => {
                assert_eq!(numeral, text);
                assert_eq!(numeral.parse::<f64>().unwrap(), text.parse::<f64>().unwrap());
            }
            other => panic!("not a number: {:?}", other),
        }
    }
}

#[test]
fn number_cannot_end_with_a_point() {
    let (tokens, errors) = scan("12.");
    assert!(tokens.is_empty());
    assert_eq!(errors, vec![SyntaxError { line: 1, fault: LexicalFault::NumberEndsWithDot }]);
    let (tokens, errors) = scan("12.x");
    assert_eq!(tokens.len(), 1);
    assert_eq!(tokens[0].token_type, TokenType::Identifier);
    assert_eq!(tokens[0].lexeme, "x");
    assert_eq!(errors.len(), 1);
}

#[test]
fn second_point_ends_the_number() {
    assert_eq!(lexemes("1.2.3"), vec!["1.2", ".", "3"]);
}

#[test]
fn string_token_holds_the_interior() {
    for inner in ["", "a", "hello world", "1 + 2", "// not a comment", "a\nb"] {
        let source = format!("\"{}\"", inner);
        let (tokens, errors) = scan(&source);
        assert!(errors.is_empty());
        assert_eq!(tokens.len(), 1);
        assert_eq!(tokens[0].lexeme, inner);
        assert_eq!(tokens[0].line, 1);
        match &tokens[0].token_type {
            TokenType::Str(text) => assert_eq!(text, inner),
            other => panic!("not a string: {:?}", other),
        }
    }
}

#[test]
fn string_may_span_lines() {
    let (tokens, errors) = scan("\"a\nb\n\" +");
    assert!(errors.is_empty());
    assert_eq!(tokens.len(), 2);
    assert_eq!(tokens[0].lexeme, "a\nb\n");
    assert_eq!(tokens[0].line, 1);
    assert_eq!(tokens[1].token_type, TokenType::Plus);
    assert_eq!(tokens[1].line, 3);
}

#[test]
fn quote_behind_a_newline_closes_the_string() {
    let (tokens, errors) = scan("\"a\n\"b");
    assert!(errors.is_empty());
    assert_eq!(lexemes("\"a\n\"b"), vec!["a\n", "b"]);
    assert_eq!(tokens[1].token_type, TokenType::Identifier);
    assert_eq!(tokens[1].line, 2);
}

#[test]
fn unterminated_string_gives_no_token() {
    let (tokens, errors) = scan("\"abc");
    assert!(tokens.is_empty());
    assert_eq!(errors, vec![SyntaxError { line: 1, fault: LexicalFault::UnterminatedString }]);
    let (tokens, errors) = scan("1 \"ab\ncd\n");
    assert_eq!(tokens.len(), 1);
    assert_eq!(errors, vec![SyntaxError { line: 3, fault: LexicalFault::UnterminatedString }]);
}

#[test]
fn reserved_words_get_their_kind() {
    let words = [
        ("and", TokenType::And),
        ("class", TokenType::Class),
        ("else", TokenType::Else),
        ("false", TokenType::False),
        ("for", TokenType::For),
        ("fun", TokenType::Fun),
        ("if", TokenType::If),
        ("nil", TokenType::Nil),
        ("or", TokenType::Or),
        ("print", TokenType::Print),
        ("return", TokenType::Return),
        ("super", TokenType::Super),
        ("this", TokenType::This),
        ("true", TokenType::True),
        ("var", TokenType::Var),
        ("while", TokenType::While),
    ];
    for (text, kind) in words {
        let (tokens, errors) = scan(text);
        assert!(errors.is_empty());
        assert_eq!(tokens.len(), 1);
        assert_eq!(tokens[0].token_type, kind);
        assert_eq!(tokens[0].lexeme, text);
    }
}

#[test]
fn other_words_are_identifiers() {
    for text in ["x", "_", "_x1", "andy", "And", "classy", "nil_", "f00", "été", "x٣"] {
        let (tokens, errors) = scan(text);
        assert!(errors.is_empty());
        assert_eq!(tokens.len(), 1);
        assert_eq!(tokens[0].token_type, TokenType::Identifier);
        assert_eq!(tokens[0].lexeme, text);
    }
}

#[test]
fn letters_and_digits_of_every_script_continue_a_word() {
    // The first would fail if no character were alphabetic, the second if
    // none beyond the letters were alphanumeric.
    assert_eq!(lexemes("é"), vec!["é"]);
    assert_eq!(lexemes("x٣"), vec!["x٣"]);
    let (tokens, errors) = scan("٣");
    assert!(tokens.is_empty());
    assert_eq!(errors.len(), 1);
}

#[test]
fn unexpected_characters_are_reported_and_skipped() {
    let (tokens, errors) = scan("1 @ 2\n# 3");
    assert_eq!(tokens.len(), 3);
    assert_eq!(
        errors,
        vec![
            SyntaxError { line: 1, fault: LexicalFault::UnexpectedCharacter },
            SyntaxError { line: 2, fault: LexicalFault::UnexpectedCharacter },
        ]
    );
}

#[test]
fn scanning_adds_no_end_marker() {
    let (tokens, _) = scan("1 + 2");
    assert_eq!(tokens.len(), 3);
    assert!(tokens.iter().all(|t| t.token_type != TokenType::EOF));
}

#[test]
fn kinds_are_equal_by_variant() {
    assert_eq!(TokenType::Number("1".to_string()), TokenType::Number("2".to_string()));
    assert_eq!(TokenType::Str("a".to_string()), TokenType::Str("b".to_string()));
    assert_ne!(TokenType::Str("1".to_string()), TokenType::Number("1".to_string()));
    assert_ne!(TokenType::Plus, TokenType::Minus);
    assert!(TokenType::Nil.same_variant(&TokenType::Nil));
}

#[test]
fn empty_token_is_an_end_marker_on_line_zero() {
    let token = Token::empty();
    assert_eq!(token.token_type, TokenType::EOF);
    assert_eq!(token.lexeme, "");
    assert_eq!(token.line, 0);
    let made = Token::new(TokenType::Plus, "+".to_string(), 3);
    assert_eq!(made.token_type, TokenType::Plus);
    assert_eq!(made.lexeme, "+");
    assert_eq!(made.line, 3);
}

#[test]
fn scan_gives_tokens_and_errors_of_a_whole_text() {
    let (tokens, errors) = lox::scanner::scan("(1 + x) @ \"s\"");
    let found: Vec<&str> = tokens.iter().map(|t| t.lexeme.as_str()).collect();
    assert_eq!(found, vec!["(", "1", "+", "x", ")", "s"]);
    assert_eq!(errors, vec![SyntaxError { line: 1, fault: LexicalFault::UnexpectedCharacter }]);
    let (tokens, errors) = lox::scanner::scan("");
    assert!(tokens.is_empty());
    assert!(errors.is_empty());
}

#[test]
fn leading_blanks_change_nothing() {
    for text in ["1 + 2", "\"a\"", "foo", "1 @"] {
        let plain = scan(text);
        for blank in [" ", "\t", "\r"] {
            let spaced = scan(&format!("{}{}", blank, text));
            assert_eq!(spaced.0.len(), plain.0.len());
            for (a, b) in spaced.0.iter().zip(plain.0.iter()) {
                assert_eq!(a.token_type, b.token_type);
                assert_eq!(a.lexeme, b.lexeme);
                assert_eq!(a.line, b.line);
            }
            assert_eq!(spaced.1, plain.1);
        }
    }
}

#[test]
fn scanning_twice_adds_nothing() {
    let text = "1 + 2".to_string();
    let mut scanner = Scanner::new(&text);
    scanner.scan_tokens();
    scanner.scan_tokens();
    assert_eq!(scanner.get_tokens().len(), 3);
}
