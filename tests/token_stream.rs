use json_front::error::{ParseError, ParseErrorKind};
use json_front::token::{Token, TokenKind, TokenStream};

fn kinds_of(source: &str) -> Vec<TokenKind> {
    let mut ts = TokenStream::new(source);
    ts.scan_all().unwrap().into_iter().map(|t| t.kind).collect()
}

fn string_kind(s: &str) -> TokenKind {
    TokenKind::String(s.to_string())
}

#[test]
fn test_single_token() {
    let mut ts = TokenStream::new(",:{}[]");
    assert_eq!(ts.next().unwrap(), Token::new(TokenKind::Comma, 1))
}

#[test]
fn test_string() {
    let mut ts = TokenStream::new("\"Cleitonrasta\"");
    assert_eq!(
        ts.next().unwrap(),
        Token::new(TokenKind::String(String::from("\"Cleitonrasta\"")), 1,)
    )
}

#[test]
fn test_number() {
    let mut ts = TokenStream::new("64");
    let token = ts.next().unwrap();
    assert_eq!(token, Token::new(TokenKind::Number("64".to_string()), 1));
    match token.kind {
        TokenKind::Number(digits) => assert_eq!(digits.parse::<f64>().unwrap(), 64.0),
        other => panic!("not a number: {:?}", other),
    }
}

#[test]
fn test_literals() {
    let mut ts = TokenStream::new("true false null");
    assert_eq!(ts.next().unwrap(), Token::new(TokenKind::True, 1))
}

#[test]
fn test_full_syntax() {
    let source = "{\n  \"name\": \"Alice\",\n  \"age\": 30,\n  \"isStudent\": false,\n  \"skills\": [\"Rust\", \"JavaScript\", \"Python\"],\n  \"address\": {\n    \"street\": \"123 Maple Street\",\n    \"city\": \"Wonderland\",\n    \"zip\": \"12345\"\n  }\n}\n";
    let mut ts = TokenStream::new(source);

    let expected_tokens = vec![
        TokenKind::LeftCurlyBracket,
        string_kind("\"name\""),
        TokenKind::Colon,
        string_kind("\"Alice\""),
        TokenKind::Comma,
        string_kind("\"age\""),
        TokenKind::Colon,
        TokenKind::Number("30".to_string()),
        TokenKind::Comma,
        string_kind("\"isStudent\""),
        TokenKind::Colon,
        TokenKind::False,
        TokenKind::Comma,
        string_kind("\"skills\""),
        TokenKind::Colon,
        TokenKind::LeftSquareBracket,
        string_kind("\"Rust\""),
        TokenKind::Comma,
        string_kind("\"JavaScript\""),
        TokenKind::Comma,
        string_kind("\"Python\""),
        TokenKind::RightSquareBracket,
        TokenKind::Comma,
        string_kind("\"address\""),
        TokenKind::Colon,
        TokenKind::LeftCurlyBracket,
        string_kind("\"street\""),
        TokenKind::Colon,
        string_kind("\"123 Maple Street\""),
        TokenKind::Comma,
        string_kind("\"city\""),
        TokenKind::Colon,
        string_kind("\"Wonderland\""),
        TokenKind::Comma,
        string_kind("\"zip\""),
        TokenKind::Colon,
        string_kind("\"12345\""),
        TokenKind::RightCurlyBracket,
        TokenKind::RightCurlyBracket,
    ];

    for expected_kind in expected_tokens {
        let token = ts.next().unwrap();
        assert_eq!(token.kind, expected_kind);
    }

    assert!(ts.next().is_err())
}

#[test]
fn test_errors() {
    assert!(TokenStream::new("\"Cleitonrasta").next().is_err())
}

#[test]
fn test_peek_does_not_advance() {
    let mut ts = TokenStream::new("true false");

    let peeked = ts.peek().unwrap();
    let next = ts.next().unwrap();

    assert_eq!(peeked, next);

    let peeked = ts.peek().unwrap();
    let next = ts.next().unwrap();

    assert_eq!(peeked, next);
}

#[test]
fn structural_punctuation_one_token_per_character() {
    let mut ts = TokenStream::new("{}[],:");
    let tokens = ts.scan_all().unwrap();
    let expected = vec![
        TokenKind::LeftCurlyBracket,
        TokenKind::RightCurlyBracket,
        TokenKind::LeftSquareBracket,
        TokenKind::RightSquareBracket,
        TokenKind::Comma,
        TokenKind::Colon,
    ];
    assert_eq!(tokens.len(), expected.len());
    for (token, kind) in tokens.iter().zip(expected) {
        assert_eq!(token.kind, kind);
        assert_eq!(token.line, 1);
    }
}

#[test]
fn line_breaks_before_a_token_count_lines() {
    let mut ts = TokenStream::new("\n\t\r null");
    assert_eq!(ts.next().unwrap(), Token::new(TokenKind::Null, 4));
    let mut ts = TokenStream::new("true\n\nfalse");
    assert_eq!(ts.next().unwrap().line, 1);
    assert_eq!(ts.next().unwrap().line, 3);
}

#[test]
fn tab_inside_a_string_is_not_a_line_break() {
    let mut ts = TokenStream::new("\"a\tb\" null");
    assert_eq!(ts.next().unwrap(), Token::new(string_kind("\"a\tb\""), 1));
    assert_eq!(ts.next().unwrap(), Token::new(TokenKind::Null, 1));
}

#[test]
fn repeated_peeks_then_next() {
    let mut ts = TokenStream::new("  [ 7");
    let first = ts.peek().unwrap();
    for _ in 0..5 {
        assert_eq!(ts.peek().unwrap(), first);
    }
    assert_eq!(ts.next().unwrap(), first);
    assert_eq!(ts.next().unwrap(), Token::new(TokenKind::Number("7".to_string()), 1));
    assert_eq!(ts.next(), Err(ParseError::new(1, ParseErrorKind::EndOfStream)));
}

#[test]
fn literals_in_order() {
    assert_eq!(
        kinds_of("true false null"),
        vec![TokenKind::True, TokenKind::False, TokenKind::Null]
    );
}

#[test]
fn digit_run_is_one_number() {
    assert_eq!(kinds_of("64"), vec![TokenKind::Number("64".to_string())]);
    assert_eq!(
        kinds_of("12,3"),
        vec![
            TokenKind::Number("12".to_string()),
            TokenKind::Comma,
            TokenKind::Number("3".to_string())
        ]
    );
}

#[test]
fn unterminated_string_at_line_one() {
    let mut ts = TokenStream::new("\"abc");
    assert_eq!(
        ts.next(),
        Err(ParseError::new(1, ParseErrorKind::UnterminatedString))
    );
}

#[test]
fn newline_inside_a_string_is_unterminated() {
    let mut ts = TokenStream::new("\n\"ab\ncd\"");
    assert_eq!(
        ts.next(),
        Err(ParseError::new(2, ParseErrorKind::UnterminatedString))
    );
}

#[test]
fn unknown_character_is_invalid_token() {
    let mut ts = TokenStream::new("\n@");
    assert_eq!(ts.next(), Err(ParseError::new(2, ParseErrorKind::InvalidToken)));
    let mut ts = TokenStream::new("-1");
    assert_eq!(ts.next(), Err(ParseError::new(1, ParseErrorKind::InvalidToken)));
}

#[test]
fn unknown_word_is_invalid_value() {
    let mut ts = TokenStream::new("truth");
    assert_eq!(ts.next(), Err(ParseError::new(1, ParseErrorKind::InvalidValue)));
    let mut ts = TokenStream::new("True");
    assert_eq!(ts.next(), Err(ParseError::new(1, ParseErrorKind::InvalidValue)));
}

#[test]
fn blank_source_is_end_of_stream() {
    let mut ts = TokenStream::new("");
    assert_eq!(ts.next(), Err(ParseError::new(1, ParseErrorKind::EndOfStream)));
    let mut ts = TokenStream::new(" \n ");
    assert_eq!(ts.next(), Err(ParseError::new(2, ParseErrorKind::EndOfStream)));
    assert!(TokenStream::new(" \n ").scan_all().unwrap().is_empty());
}

#[test]
fn non_ascii_text_inside_a_string() {
    let mut ts = TokenStream::new("\"héllo\"");
    assert_eq!(ts.next().unwrap(), Token::new(string_kind("\"héllo\""), 1));
    let mut ts = TokenStream::new("é");
    assert_eq!(ts.next(), Err(ParseError::new(1, ParseErrorKind::InvalidToken)));
}

#[test]
fn scan_all_stops_at_first_failure() {
    let mut ts = TokenStream::new("[1,\n2, ?]");
    assert_eq!(
        ts.scan_all(),
        Err(ParseError::new(2, ParseErrorKind::InvalidToken))
    );
}

#[test]
fn line_follows_the_stream() {
    let mut ts = TokenStream::new("null\n\n");
    assert_eq!(ts.line(), 1);
    assert!(ts.scan_all().unwrap().len() == 1);
    assert_eq!(ts.line(), 3);
}

#[test]
fn result_alias_holds_a_parse_error() {
    let r: json_front::error::Result<u8> = Err(ParseError::new(2, ParseErrorKind::EndOfStream));
    assert_eq!(r.unwrap_err().line(), 2);
}

#[test]
fn error_accessors() {
    let e = ParseError::new(7, ParseErrorKind::NotAPrimitive);
    assert_eq!(e.line(), 7);
    assert_eq!(e.kind(), ParseErrorKind::NotAPrimitive);
}

#[test]
fn end_of_stream_and_char_at_pointer() {
    let ts = TokenStream::new("x");
    assert!(!ts.end_of_stream());
    assert_eq!(ts.char_at_pointer(), 'x');
    assert!(TokenStream::new("").end_of_stream());
}
