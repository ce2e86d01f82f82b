use lox::error::RuntimeError;
use lox::expr::Expr;
use lox::interpreter::{interpret_binary, interpret_literal, interpret_unary, values_equal};
use lox::parser::Parser;
use lox::scanner::Scanner;
use lox::token::{Token, TokenType};
use lox::value::{Arithmetic, Comparison, Value};

fn number(numeral: &str) -> f64 {
    numeral.parse::<f64>().unwrap()
}

fn negate(x: f64) -> f64 {
    -1.0 * x
}

fn arith(operation: Arithmetic, x: f64, y: f64) -> f64 {
    match operation {
        Arithmetic::Add => x + y,
        Arithmetic::Subtract => x - y,
        Arithmetic::Divide => x / y,
        Arithmetic::Multiply => x * y,
    }
}

fn compare(relation: Comparison, x: f64, y: f64) -> bool {
    match relation {
        Comparison::Greater => x > y,
        Comparison::GreaterEqual => x >= y,
        Comparison::Less => x < y,
        Comparison::LessEqual => x <= y,
        Comparison::Equal => x == y,
    }
}

fn parse(source: &str) -> Expr {
    let text = source.to_string();
    let mut scanner = Scanner::new(&text);
    scanner.scan_tokens();
    assert!(scanner.get_errors().is_empty());
    let mut parser = Parser::new(scanner.get_tokens());
    parser.parse().unwrap()
}

fn eval(source: &str) -> Result<Value<f64>, RuntimeError> {
    parse(source).interpret(&number, &negate, &arith, &compare)
}

fn value(source: &str) -> Value<f64> {
    eval(source).unwrap()
}

fn operator(kind: TokenType, lexeme: &str) -> Token {
    Token::new(kind, lexeme.to_string(), 1)
}

#[test]
fn multiplication_binds_tighter_than_addition() {
    assert_eq!(value("1 + 2 * 3"), Value::Number(7.0));
    assert_ne!(value("1 + 2 * 3"), Value::Number(9.0));
}

#[test]
fn grouping_overrides_precedence() {
    assert_eq!(value("(1 + 2) * 3"), Value::Number(9.0));
}

#[test]
fn subtraction_evaluates_left_to_right() {
    assert_eq!(value("1 - 2 - 3"), Value::Number(-4.0));
    assert_eq!(value("8 / 4 / 2"), Value::Number(1.0));
}

#[test]
fn plus_joins_two_strings() {
    assert_eq!(value("\"a\" + \"b\""), Value::Str("ab".to_string()));
    assert_eq!(value("\"a\" + \"b\" + \"\""), Value::Str("ab".to_string()));
}

#[test]
fn plus_fails_on_a_number_and_a_string() {
    let error = eval("1 + \"a\"").unwrap_err();
    assert_eq!(error.0.token_type, TokenType::Plus);
    assert_eq!(error.0.lexeme, "+");
    assert_eq!(error.0.line, 1);
    assert_eq!(eval("\"a\" + 1").unwrap_err().0.token_type, TokenType::Plus);
    assert_eq!(eval("true + true").unwrap_err().0.token_type, TokenType::Plus);
}

#[test]
fn equality_is_type_sensitive_and_never_fails() {
    assert_eq!(value("1 == \"1\""), Value::Bool(false));
    assert_eq!(value("nil == nil"), Value::Bool(true));
    assert_eq!(value("true != false"), Value::Bool(true));
    assert_eq!(value("1 != \"1\""), Value::Bool(true));
    assert_eq!(value("nil == false"), Value::Bool(false));
    assert_eq!(value("true == true"), Value::Bool(true));
    assert_eq!(value("false == false"), Value::Bool(true));
    assert_eq!(value("true == false"), Value::Bool(false));
    assert_eq!(value("\"a\" == \"a\""), Value::Bool(true));
    assert_eq!(value("\"a\" == \"b\""), Value::Bool(false));
    assert_eq!(value("1 == 1.0"), Value::Bool(true));
    assert_eq!(value("1 == 2"), Value::Bool(false));
    assert_eq!(value("1 != 2"), Value::Bool(true));
    assert_eq!(value("nil != nil"), Value::Bool(false));
}

#[test]
fn literals_evaluate_to_themselves() {
    assert_eq!(value("12.5"), Value::Number(12.5));
    assert_eq!(value("\"hi\""), Value::Str("hi".to_string()));
    assert_eq!(value("true"), Value::Bool(true));
    assert_eq!(value("false"), Value::Bool(false));
    assert_eq!(value("nil"), Value::Nil);
    assert_eq!(value("(nil)"), Value::Nil);
}

#[test]
fn literal_of_another_kind_fails_with_an_end_marker_of_its_kind() {
    let error = interpret_literal::<f64, _>(&TokenType::Plus, &number).unwrap_err();
    assert_eq!(error.0.token_type, TokenType::Plus);
    assert_eq!(error.0.lexeme, "");
    assert_eq!(error.0.line, 0);
    let error = RuntimeError::empty(TokenType::Identifier);
    assert_eq!(error.0.token_type, TokenType::Identifier);
    assert_eq!(error.0.line, 0);
}

#[test]
fn arithmetic_on_numbers() {
    assert_eq!(value("7 - 2"), Value::Number(5.0));
    assert_eq!(value("7 / 2"), Value::Number(3.5));
    assert_eq!(value("7 * 2"), Value::Number(14.0));
    assert_eq!(value("0.5 + 0.25"), Value::Number(0.75));
    assert_eq!(value("1 / 0"), Value::Number(f64::INFINITY));
}

#[test]
fn arithmetic_fails_on_other_kinds() {
    assert_eq!(eval("\"a\" - \"b\"").unwrap_err().0.token_type, TokenType::Minus);
    assert_eq!(eval("\"a\" * 2").unwrap_err().0.token_type, TokenType::Star);
    assert_eq!(eval("nil / 2").unwrap_err().0.token_type, TokenType::Slash);
}

#[test]
fn comparisons_of_numbers() {
    assert_eq!(value("1 < 2"), Value::Bool(true));
    assert_eq!(value("2 < 2"), Value::Bool(false));
    assert_eq!(value("2 <= 2"), Value::Bool(true));
    assert_eq!(value("3 > 2"), Value::Bool(true));
    assert_eq!(value("2 > 2"), Value::Bool(false));
    assert_eq!(value("2 >= 2"), Value::Bool(true));
    assert_eq!(value("1 >= 2"), Value::Bool(false));
}

#[test]
fn comparisons_fail_on_other_kinds() {
    assert_eq!(eval("\"a\" < \"b\"").unwrap_err().0.token_type, TokenType::Less);
    assert_eq!(eval("1 <= true").unwrap_err().0.token_type, TokenType::LessEqual);
    assert_eq!(eval("nil > 1").unwrap_err().0.token_type, TokenType::Greater);
    assert_eq!(eval("nil >= nil").unwrap_err().0.token_type, TokenType::GreaterEqual);
}

#[test]
fn minus_negates_a_number_only() {
    assert_eq!(value("-3"), Value::Number(-3.0));
    assert_eq!(value("--3"), Value::Number(3.0));
    assert_eq!(eval("-\"a\"").unwrap_err().0.token_type, TokenType::Minus);
    assert_eq!(eval("-true").unwrap_err().0.token_type, TokenType::Minus);
    assert_eq!(eval("-nil").unwrap_err().0.token_type, TokenType::Minus);
}

#[test]
fn bang_negates_a_truth_value_only() {
    assert_eq!(value("!true"), Value::Bool(false));
    assert_eq!(value("!false"), Value::Bool(true));
    assert_eq!(value("!(1 < 2)"), Value::Bool(false));
    assert_eq!(eval("!nil").unwrap_err().0.token_type, TokenType::Bang);
    assert_eq!(eval("!1").unwrap_err().0.token_type, TokenType::Bang);
    assert_eq!(eval("!\"a\"").unwrap_err().0.token_type, TokenType::Bang);
}

#[test]
fn failure_of_the_left_operand_comes_first() {
    let error = eval("(1 + nil) * (2 - \"a\")").unwrap_err();
    assert_eq!(error.0.token_type, TokenType::Plus);
    let error = eval("1 * (2 - \"a\")").unwrap_err();
    assert_eq!(error.0.token_type, TokenType::Minus);
    let error = eval("-nil == !1").unwrap_err();
    assert_eq!(error.0.token_type, TokenType::Minus);
}

#[test]
fn failure_carries_the_line_of_the_operator() {
    let error = eval("1\n+\n\"a\"").unwrap_err();
    assert_eq!(error.0.line, 2);
    assert_eq!(error.0.lexeme, "+");
}

#[test]
fn operator_of_no_group_fails() {
    let op = operator(TokenType::Comma, ",");
    let r = interpret_binary(&op, Value::Number(1.0), Value::Number(2.0), &arith, &compare);
    assert_eq!(r.unwrap_err().0.token_type, TokenType::Comma);
    let r = interpret_unary(&op, Value::Number(1.0), &negate);
    assert_eq!(r.unwrap_err().0.token_type, TokenType::Comma);
}

#[test]
fn operators_apply_to_given_values() {
    let plus = operator(TokenType::Plus, "+");
    let r = interpret_binary(
        &plus,
        Value::<f64>::Str("x".to_string()),
        Value::Str("y".to_string()),
        &arith,
        &compare,
    );
    assert_eq!(r.unwrap(), Value::Str("xy".to_string()));
    let r = interpret_binary(&plus, Value::Number(1.5), Value::Number(2.0), &arith, &compare);
    assert_eq!(r.unwrap(), Value::Number(3.5));
    let bang = operator(TokenType::Bang, "!");
    assert_eq!(interpret_unary(&bang, Value::<f64>::Bool(true), &negate).unwrap(), Value::Bool(false));
    assert!(values_equal(&Value::<f64>::Nil, &Value::Nil, &compare));
    assert!(!values_equal(&Value::Number(1.0), &Value::Str("1".to_string()), &compare));
    assert!(values_equal(&Value::Number(0.0), &Value::Number(-0.0), &compare));
    assert!(!values_equal(&Value::Number(f64::NAN), &Value::Number(f64::NAN), &compare));
}
