use lox::error::{ParseError, ParseFault};
use lox::expr::Expr;
use lox::parser::Parser;
use lox::scanner::Scanner;
use lox::token::{Token, TokenType};

fn tokens_of(source: &str) -> Vec<Token> {
    let text = source.to_string();
    let mut scanner = Scanner::new(&text);
    scanner.scan_tokens();
    scanner.get_tokens().clone()
}

fn parse(source: &str) -> Result<Expr, ParseError> {
    let tokens = tokens_of(source);
    let mut parser = Parser::new(&tokens);
    parser.parse()
}

fn show_number(numeral: &str) -> String {
    format!("{}", numeral.parse::<f64>().unwrap())
}

fn printed(source: &str) -> String {
    parse(source).unwrap().render(&show_number)
}

#[test]
fn subtraction_associates_to_the_left() {
    match parse("1 - 2 - 3").unwrap() {
        Expr::Binary { left, op, right } => {
            assert_eq!(op.token_type, TokenType::Minus);
            assert!(matches!(*right, Expr::Literal { value: TokenType::Number(ref n) } if n == "3"));
            match *left {
                Expr::Binary { left, op, right } => {
                    assert_eq!(op.token_type, TokenType::Minus);
                    assert!(matches!(*left, Expr::Literal { value: TokenType::Number(ref n) } if n == "1"));
                    assert!(matches!(*right, Expr::Literal { value: TokenType::Number(ref n) } if n == "2"));
                }
                other => panic!("left operand is {:?}", other),
            }
        }
        other => panic!("root is {:?}", other),
    }
    assert_eq!(printed("1 - 2 - 3"), "(- (- 1 2) 3)");
}

#[test]
fn every_level_associates_to_the_left() {
    assert_eq!(printed("1 == 2 != 3"), "(!= (== 1 2) 3)");
    assert_eq!(printed("1 < 2 >= 3 > 4 <= 5"), "(<= (> (>= (< 1 2) 3) 4) 5)");
    assert_eq!(printed("1 + 2 - 3"), "(- (+ 1 2) 3)");
    assert_eq!(printed("8 / 4 * 2"), "(* (/ 8 4) 2)");
}

#[test]
fn tighter_levels_bind_first() {
    assert_eq!(printed("1 + 2 * 3"), "(+ 1 (* 2 3))");
    assert_eq!(printed("1 * 2 + 3"), "(+ (* 1 2) 3)");
    assert_eq!(printed("1 + 2 < 3 * 4 == true"), "(== (< (+ 1 2) (* 3 4)) )");
    assert_eq!(printed("-1 * -2"), "(* (- 1) (- 2))");
}

#[test]
fn grouping_is_a_node_of_its_own() {
    assert_eq!(printed("(1 + 2) * 3"), "(* (group (+ 1 2)) 3)");
    assert_eq!(printed("((1))"), "(group (group 1))");
}

#[test]
fn prefix_operators_nest_to_the_right() {
    assert_eq!(printed("!!true"), "(! (! ))");
    assert_eq!(printed("- - 1"), "(- (- 1))");
    assert_eq!(printed("-!1"), "(- (! 1))");
}

#[test]
fn printing_ignores_source_spacing() {
    assert_eq!(printed("1+2*3"), printed("  1 \t+\n2   *  3 // done"));
    assert_eq!(printed("\"a b\"+\"c\""), "(+ a b c)");
    assert_eq!(printed("1.50 + 2.0"), "(+ 1.5 2)");
}

#[test]
fn literals_print_as_their_text_or_nothing() {
    assert_eq!(printed("\"hi\""), "hi");
    assert_eq!(printed("12.5"), "12.5");
    assert_eq!(printed("true"), "");
    assert_eq!(printed("false"), "");
    assert_eq!(printed("nil"), "");
}

#[test]
fn missing_operand_is_an_expected_expression() {
    let error = parse("1 +").unwrap_err();
    assert_eq!(error.fault, ParseFault::ExpectedExpression);
    assert!(error.token.is_none());
    assert_eq!(error.report(), None);
}

#[test]
fn expected_expression_names_the_token() {
    let error = parse("1 + *").unwrap_err();
    assert_eq!(error.fault, ParseFault::ExpectedExpression);
    let token = error.token.as_ref().unwrap();
    assert_eq!(token.token_type, TokenType::Star);
    assert_eq!(error.report().unwrap(), "[line 1] Error at '*': Expected expression.");
    let error = parse("foo").unwrap_err();
    assert_eq!(error.fault, ParseFault::ExpectedExpression);
    assert_eq!(error.token.unwrap().lexeme, "foo");
    let error = parse("").unwrap_err();
    assert_eq!(error.fault, ParseFault::ExpectedExpression);
    assert!(error.token.is_none());
}

#[test]
fn adjacent_primaries_are_an_unexpected_expression() {
    let error = parse("1 2").unwrap_err();
    assert_eq!(error.fault, ParseFault::UnexpectedExpression);
    let token = error.token.as_ref().unwrap();
    assert_eq!(token.lexeme, "2");
    assert_eq!(error.report().unwrap(), "[line 1] Error at '2': Unexpected Expression");
    for source in ["1 (2)", "1 foo", "1 + 2 \"a\"", "(1 true)", "nil nil"] {
        assert_eq!(parse(source).unwrap_err().fault, ParseFault::UnexpectedExpression);
    }
}

#[test]
fn unclosed_parenthesis_is_reported() {
    let error = parse("(1 + 2").unwrap_err();
    assert_eq!(error.fault, ParseFault::ExpectedRightParen);
    assert!(error.token.is_none());
    let error = parse("(1 + 2 ;").unwrap_err();
    assert_eq!(error.fault, ParseFault::ExpectedRightParen);
    assert_eq!(error.token.as_ref().unwrap().token_type, TokenType::SemiColon);
    assert_eq!(error.report().unwrap(), "[line 1] Error at ';': Expect ')' after expression.");
}

#[test]
fn end_marker_is_reported_as_the_end() {
    let mut tokens = tokens_of("1 +");
    tokens.push(Token::new(TokenType::EOF, String::new(), 4));
    let mut parser = Parser::new(&tokens);
    let error = parser.parse().unwrap_err();
    assert_eq!(error.fault, ParseFault::ExpectedExpression);
    assert_eq!(error.report().unwrap(), "[line 4] Error at end: Expected expression.");
}

#[test]
fn tokens_behind_the_expression_are_left_unread() {
    assert_eq!(printed("1 + 2 ) 3"), "(+ 1 2)");
    assert_eq!(printed("1 ;"), "1");
}

#[test]
fn operators_fit_the_level_that_built_them() {
    fn check(e: &Expr) {
        match e {
            Expr::Binary { left, op, right } => {
                assert!(matches!(
                    op.token_type,
                    TokenType::BangEqual
                        | TokenType::EqualEqual
                        | TokenType::Greater
                        | TokenType::GreaterEqual
                        | TokenType::Less
                        | TokenType::LessEqual
                        | TokenType::Minus
                        | TokenType::Plus
                        | TokenType::Slash
                        | TokenType::Star
                ));
                check(left);
                check(right);
            }
            Expr::Unary { op, right } => {
                assert!(matches!(op.token_type, TokenType::Bang | TokenType::Minus));
                check(right);
            }
            Expr::Grouping { expression } => check(expression),
            Expr::Literal { value } => assert!(matches!(
                value,
                TokenType::Number(_)
                    | TokenType::Str(_)
                    | TokenType::True
                    | TokenType::False
                    | TokenType::Nil
            )),
        }
    }
    for source in ["1 + 2 * 3 == 4 - -5 / (6 < 7)", "!(true != false) == nil", "\"a\" + \"b\""] {
        check(&parse(source).unwrap());
    }
}

#[test]
fn parse_reads_one_expression_from_the_start() {
    let tokens = tokens_of("1 * (2 + 3)");
    let expr = lox::parser::parse(&tokens).unwrap();
    assert_eq!(expr.render(&show_number), "(* 1 (group (+ 2 3)))");
    let tokens = tokens_of("* 1");
    let error = lox::parser::parse(&tokens).unwrap_err();
    assert_eq!(error.fault, ParseFault::ExpectedExpression);
    assert_eq!(error.token.unwrap().token_type, TokenType::Star);
}

#[test]
fn parser_stands_behind_what_it_parsed() {
    let tokens = tokens_of("1 ) 2 + 3");
    let mut parser = Parser::new(&tokens);
    assert_eq!(parser.parse().unwrap().render(&show_number), "1");
    // The parser now stands at `)`, where no expression starts.
    let error = parser.parse().unwrap_err();
    assert_eq!(error.fault, ParseFault::ExpectedExpression);
    assert_eq!(error.token.unwrap().token_type, TokenType::RightParen);
}

#[test]
fn text_of_a_tree_is_the_same_each_time() {
    let expr = parse("-(1.0 + \"two\") == !nil").unwrap();
    let first = expr.render(&show_number);
    assert_eq!(first, "(== (- (group (+ 1 two))) (! ))");
    assert_eq!(expr.render(&show_number), first);
}
