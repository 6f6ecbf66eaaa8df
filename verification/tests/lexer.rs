use uka::sakura_script::tokenizer::{Lexer, Token};

#[test]
fn test_next_token_text() {
    let mut lexer = Lexer::new("こんにちは");
    let token = lexer.next_token().unwrap();
    assert!(matches!(token, Token::Text(_)));
    assert_eq!(token.to_string(), "こんにちは");
}

#[test]
fn test_next_token_escape() {
    let mut lexer = Lexer::new("\\n");
    let token = lexer.next_token().unwrap();
    assert!(matches!(token, Token::Escape(_)));
    assert_eq!(token.to_string(), "\\n");
}

#[test]
fn test_next_token_percent() {
    let mut lexer = Lexer::new("%month");
    let token = lexer.next_token().unwrap();
    assert!(matches!(token, Token::Percent(_)));
    assert_eq!(token.to_string(), "%month");
}

#[test]
fn test_next_token_bracket_left() {
    let mut lexer = Lexer::new("[");
    let token = lexer.next_token().unwrap();
    assert!(matches!(token, Token::Bracket(_)));
    assert_eq!(token.to_string(), "[");
}

#[test]
fn test_next_token_bracket_right() {
    let mut lexer = Lexer::new("]");
    let token = lexer.next_token().unwrap();
    assert!(matches!(token, Token::Bracket(_)));
    assert_eq!(token.to_string(), "]");
}

#[test]
fn test_next_token_separator() {
    let mut lexer = Lexer::new(",");
    let token = lexer.next_token().unwrap();
    assert!(matches!(token, Token::Separator(_)));
    assert_eq!(token.to_string(), ",");
}

#[test]
fn test_next_token_empty_input() {
    let mut lexer = Lexer::new("");
    assert!(lexer.next_token().is_none());
}

#[test]
fn test_next_token_escape_with_underscore() {
    let mut lexer = Lexer::new("\\_w");
    let token = lexer.next_token().unwrap();
    assert!(matches!(token, Token::Escape(_)));
    assert_eq!(token.to_string(), "\\_w");
}

#[test]
fn test_next_token_escape_backslash() {
    let mut lexer = Lexer::new("\\\\");
    let token = lexer.next_token().unwrap();
    assert!(matches!(token, Token::Escape(_)));
    assert_eq!(token.to_string(), "\\\\");
}

#[test]
fn test_next_token_escape_percent() {
    let mut lexer = Lexer::new("\\%");
    let token = lexer.next_token().unwrap();
    assert!(matches!(token, Token::Escape(_)));
    assert_eq!(token.to_string(), "\\%");
}

#[test]
fn test_next_token_percent_selfname2() {
    let mut lexer = Lexer::new("%selfname2");
    let token = lexer.next_token().unwrap();
    assert!(matches!(token, Token::Percent(_)));
    assert_eq!(token.to_string(), "%selfname2");
}

#[test]
fn test_next_token_percent_screenwidth() {
    let mut lexer = Lexer::new("%screenwidth");
    let token = lexer.next_token().unwrap();
    assert!(matches!(token, Token::Percent(_)));
    assert_eq!(token.to_string(), "%screenwidth");
}

#[test]
fn test_next_token_percent_ai_ms() {
    let mut lexer = Lexer::new("%ms");
    let token = lexer.next_token().unwrap();
    assert!(matches!(token, Token::Percent(_)));
    assert_eq!(token.to_string(), "%ms");
}

#[test]
fn test_next_token_percent_ai_question() {
    let mut lexer = Lexer::new("%m?");
    let token = lexer.next_token().unwrap();
    assert!(matches!(token, Token::Percent(_)));
    assert_eq!(token.to_string(), "%m?");
}

#[test]
fn test_next_token_utf8_text() {
    let mut lexer = Lexer::new("さくら🌸うにゅう");
    let token = lexer.next_token().unwrap();
    assert!(matches!(token, Token::Text(_)));
    assert_eq!(token.to_string(), "さくら🌸うにゅう");
}

#[test]
fn test_next_token_whitespace_spaces() {
    let mut lexer = Lexer::new("   ");
    let token = lexer.next_token().unwrap();
    assert!(matches!(token, Token::Text(_)));
    assert_eq!(token.to_string(), "   ");
}

#[test]
fn test_next_token_whitespace_mixed() {
    let mut lexer = Lexer::new("\t\r\n");
    let token = lexer.next_token().unwrap();
    assert!(matches!(token, Token::Text(_)));
    assert_eq!(token.to_string(), "\t\r\n");
}

#[test]
fn test_next_token_special_characters() {
    let mut lexer = Lexer::new("!@#$^&*()_+-={}|:\";<>.unwrap()./");
    let token = lexer.next_token().unwrap();
    assert!(matches!(token, Token::Text(_)));
    assert_eq!(token.to_string(), "!@#$^&*()_+-={}|:\";<>.unwrap()./");
}

#[test]
fn test_next_token_consecutive_simple() {
    let mut lexer = Lexer::new("\\h[0]");
    let token1 = lexer.next_token().unwrap();
    assert!(matches!(token1, Token::Escape(_)));
    assert_eq!(token1.to_string(), "\\h");
    let token2 = lexer.next_token().unwrap();
    assert!(matches!(token2, Token::Bracket(_)));
    assert_eq!(token2.to_string(), "[");
    let token3 = lexer.next_token().unwrap();
    assert!(matches!(token3, Token::Text(_)));
    assert_eq!(token3.to_string(), "0");
    let token4 = lexer.next_token().unwrap();
    assert!(matches!(token4, Token::Bracket(_)));
    assert_eq!(token4.to_string(), "]");
}

#[test]
fn test_next_token_bracket_content() {
    let mut lexer = Lexer::new("[10]");
    let token1 = lexer.next_token().unwrap();
    assert!(matches!(token1, Token::Bracket(_)));
    let token2 = lexer.next_token().unwrap();
    assert!(matches!(token2, Token::Text(_)));
    assert_eq!(token2.to_string(), "10");
    let token3 = lexer.next_token().unwrap();
    assert!(matches!(token3, Token::Bracket(_)));
}

#[test]
fn test_next_token_percent_unknown() {
    let mut lexer = Lexer::new("%unknown");
    let token = lexer.next_token().unwrap();
    assert!(matches!(token, Token::Percent(_)));
    assert_eq!(token.to_string(), "%unknown");
}

#[test]
fn test_next_token_illegal_backslash() {
    let mut lexer = Lexer::new("\\");
    let token = lexer.next_token().unwrap();
    assert!(matches!(token, Token::Illegal(_)));
    assert_eq!(token.to_string(), "\\");
}

#[test]
fn test_next_token_illegal_percent() {
    let mut lexer = Lexer::new("%");
    let token = lexer.next_token().unwrap();
    assert!(matches!(token, Token::Illegal(_)));
    assert_eq!(token.to_string(), "%");
}

#[test]
fn test_next_token_illegal_backslash_at_end() {
    let mut lexer = Lexer::new("hello\\");
    let token1 = lexer.next_token().unwrap();
    assert!(matches!(token1, Token::Text(_)));
    assert_eq!(token1.to_string(), "hello");
    let token2 = lexer.next_token().unwrap();
    assert!(matches!(token2, Token::Illegal(_)));
    assert_eq!(token2.to_string(), "\\");
}

#[test]
fn test_next_token_illegal_percent_at_end() {
    let mut lexer = Lexer::new("world%");
    let token1 = lexer.next_token().unwrap();
    assert!(matches!(token1, Token::Text(_)));
    assert_eq!(token1.to_string(), "world");
    let token2 = lexer.next_token().unwrap();
    assert!(matches!(token2, Token::Illegal(_)));
    assert_eq!(token2.to_string(), "%");
}

#[test]
fn test_next_token_illegal_percent_invalid_char() {
    let mut lexer = Lexer::new("%@");
    let token1 = lexer.next_token().unwrap();
    assert!(matches!(token1, Token::Illegal(_)));
    assert_eq!(token1.to_string(), "%");
    let token2 = lexer.next_token().unwrap();
    assert!(matches!(token2, Token::Text(_)));
    assert_eq!(token2.to_string(), "@");
}
