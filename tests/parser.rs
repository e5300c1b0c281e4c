use json_front::ast::{Container, JsonValue, Member, Primitive};
use json_front::error::{ParseError, ParseErrorKind};
use json_front::parse;
use json_front::parser::{parse_values, Parser};
use json_front::token::TokenStream;

fn number(digits: &str) -> JsonValue {
    JsonValue::Primitive(Primitive::Number(digits.to_string()))
}

fn string(text: &str) -> JsonValue {
    JsonValue::Primitive(Primitive::String(text.to_string()))
}

fn member(name: &str, value: JsonValue) -> Member {
    Member { name: name.to_string(), value }
}

#[test]
fn test_parse_primitive() {
    let mut parser = Parser::new(TokenStream::new("35 \"meudeus\" false null"));
    let ast = parser.parse().unwrap();
    let mut iter = ast.iter();

    let first = iter.next().unwrap();
    assert_eq!(first, &number("35"));
    if let JsonValue::Primitive(Primitive::Number(digits)) = first {
        assert_eq!(digits.parse::<f64>().unwrap(), 35.0);
    }
    assert_eq!(iter.next().unwrap(), &string("\"meudeus\""));
    assert_eq!(
        iter.next().unwrap(),
        &JsonValue::Primitive(Primitive::Boolean(false))
    );
    assert_eq!(iter.next().unwrap(), &JsonValue::Primitive(Primitive::Null));
    assert!(iter.next().is_none());
}

#[test]
fn top_level_primitives_in_order() {
    assert_eq!(
        parse("35 \"x\" false null").unwrap(),
        vec![
            number("35"),
            string("\"x\""),
            JsonValue::Primitive(Primitive::Boolean(false)),
            JsonValue::Primitive(Primitive::Null),
        ]
    );
}

#[test]
fn empty_object_and_empty_array() {
    assert_eq!(
        parse("{}").unwrap(),
        vec![JsonValue::Container(Container::Object(vec![]))]
    );
    assert_eq!(
        parse("[]").unwrap(),
        vec![JsonValue::Container(Container::Array(vec![]))]
    );
}

#[test]
fn object_members_in_source_order() {
    assert_eq!(
        parse("{\"a\":1,\"b\":2}").unwrap(),
        vec![JsonValue::Container(Container::Object(vec![
            member("\"a\"", number("1")),
            member("\"b\"", number("2")),
        ]))]
    );
}

#[test]
fn duplicate_names_are_both_kept() {
    assert_eq!(
        parse("{\"a\":1,\"a\":true}").unwrap(),
        vec![JsonValue::Container(Container::Object(vec![
            member("\"a\"", number("1")),
            member("\"a\"", JsonValue::Primitive(Primitive::Boolean(true))),
        ]))]
    );
}

#[test]
fn nested_containers() {
    assert_eq!(
        parse("[1, [], {\"k\": [null]}]\n").unwrap(),
        vec![JsonValue::Container(Container::Array(vec![
            number("1"),
            JsonValue::Container(Container::Array(vec![])),
            JsonValue::Container(Container::Object(vec![member(
                "\"k\"",
                JsonValue::Container(Container::Array(vec![JsonValue::Primitive(
                    Primitive::Null
                )])),
            )])),
        ]))]
    );
}

#[test]
fn empty_source_has_no_values() {
    assert_eq!(parse("").unwrap(), vec![]);
    assert_eq!(parse(" \n\t").unwrap(), vec![]);
}

#[test]
fn object_without_closing_brace_is_unterminated() {
    assert_eq!(
        parse("{\"a\":1"),
        Err(ParseError::new(1, ParseErrorKind::UnterminatedContainer))
    );
    assert_eq!(
        parse("{\"a\":1,\n\"b\":2"),
        Err(ParseError::new(2, ParseErrorKind::UnterminatedContainer))
    );
    assert_eq!(
        parse("{"),
        Err(ParseError::new(1, ParseErrorKind::UnterminatedContainer))
    );
}

#[test]
fn unterminated_container_reported_where_input_ends() {
    assert_eq!(
        parse("{\"a\":1\n\n"),
        Err(ParseError::new(3, ParseErrorKind::UnterminatedContainer))
    );
    assert_eq!(
        parse("[\n"),
        Err(ParseError::new(2, ParseErrorKind::UnterminatedContainer))
    );
}

#[test]
fn array_without_closing_bracket_is_unterminated() {
    assert_eq!(
        parse("[1,"),
        Err(ParseError::new(1, ParseErrorKind::UnterminatedContainer))
    );
}

#[test]
fn structural_token_as_value_is_not_a_primitive() {
    assert_eq!(
        parse("\n}"),
        Err(ParseError::new(2, ParseErrorKind::NotAPrimitive))
    );
    assert_eq!(
        parse("[,]"),
        Err(ParseError::new(1, ParseErrorKind::NotAPrimitive))
    );
}

#[test]
fn broken_grammar_is_an_unexpected_token() {
    assert_eq!(
        parse("{1:2}"),
        Err(ParseError::new(1, ParseErrorKind::UnexpectedToken))
    );
    assert_eq!(
        parse("{\"a\" 2}"),
        Err(ParseError::new(1, ParseErrorKind::UnexpectedToken))
    );
    assert_eq!(
        parse("[1\n2]"),
        Err(ParseError::new(2, ParseErrorKind::UnexpectedToken))
    );
    assert_eq!(
        parse("{\"a\":1]"),
        Err(ParseError::new(1, ParseErrorKind::UnexpectedToken))
    );
}

#[test]
fn scanning_failure_comes_before_grammar_failure() {
    assert_eq!(
        parse("} @"),
        Err(ParseError::new(1, ParseErrorKind::InvalidToken))
    );
}

#[test]
fn parse_values_on_scanned_tokens() {
    let tokens = TokenStream::new("[true]").scan_all().unwrap();
    assert_eq!(
        parse_values(&tokens, 1).unwrap(),
        vec![JsonValue::Container(Container::Array(vec![
            JsonValue::Primitive(Primitive::Boolean(true))
        ]))]
    );
}
