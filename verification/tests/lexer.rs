use terminal::lexer::{is_name_char, LexError, Lexer};
use terminal::token_source::{Token, TokenType};

fn token(token_type: TokenType, data: &str) -> Option<Result<Token, LexError>> {
    Some(Ok(Token { token_type, data: data.to_string(), value: None }))
}

fn assignment(data: &str, value: &str) -> Option<Result<Token, LexError>> {
    Some(Ok(Token {
        token_type: TokenType::Assignement,
        data: data.to_string(),
        value: Some(value.to_string()),
    }))
}

fn all(source: &[u8]) -> Vec<Result<Token, LexError>> {
    let mut lexer = Lexer::new(source.to_vec());
    let mut tokens = Vec::new();
    while let Some(Some(outcome)) = lexer.try_next() {
        tokens.push(outcome);
        assert!(tokens.len() <= source.len() + 1);
    }
    tokens
}

fn word(data: &str) -> Result<Token, LexError> {
    Ok(Token { token_type: TokenType::Identifier, data: data.to_string(), value: None })
}

fn plain(token_type: TokenType, data: &str) -> Result<Token, LexError> {
    Ok(Token { token_type, data: data.to_string(), value: None })
}

#[test]
fn words_are_identifiers() {
    let mut lexer = Lexer::new(b"ls -la /tmp/a_b.c ~".to_vec());
    assert_eq!(lexer.next(), token(TokenType::Identifier, "ls"));
    assert_eq!(lexer.next(), token(TokenType::Identifier, "-la"));
    assert_eq!(lexer.next(), token(TokenType::Identifier, "/tmp/a_b.c"));
    assert_eq!(lexer.next(), token(TokenType::Identifier, "~"));
    assert_eq!(lexer.next(), None);
    assert_eq!(lexer.next(), None);
}

#[test]
fn empty_and_blank_sources_have_no_tokens() {
    assert!(all(b"").is_empty());
    assert!(all(b"  \t\r\n  ").is_empty());
}

#[test]
fn semicolon_separates_and_newline_is_whitespace() {
    assert_eq!(all(b"a;b"), vec![word("a"), plain(TokenType::SemiColon, ";"), word("b")]);
    assert_eq!(all(b"a ; b"), vec![word("a"), plain(TokenType::SemiColon, ";"), word("b")]);
    assert_eq!(all(b"a\nb"), vec![word("a"), word("b")]);
}

#[test]
fn ampersands() {
    assert_eq!(all(b"a & b"), vec![word("a"), plain(TokenType::And, "&"), word("b")]);
    assert_eq!(all(b"a && b"), vec![word("a"), plain(TokenType::DoubleAnd, "&&"), word("b")]);
    assert_eq!(all(b"a &"), vec![word("a"), plain(TokenType::And, "&")]);
    assert_eq!(all(b"&&"), vec![plain(TokenType::DoubleAnd, "&&")]);
}

#[test]
fn pipes() {
    assert_eq!(all(b"a | b"), vec![word("a"), plain(TokenType::Pipe, "|"), word("b")]);
    assert_eq!(all(b"a || b"), vec![word("a"), plain(TokenType::DoublePipe, "||"), word("b")]);
    assert_eq!(all(b"|"), vec![plain(TokenType::Pipe, "|")]);
}

#[test]
fn an_operator_takes_the_character_behind_it() {
    assert_eq!(all(b"a&b"), vec![word("a"), plain(TokenType::And, "&")]);
    assert_eq!(all(b"a&&b c"), vec![word("a"), plain(TokenType::DoubleAnd, "&&"), word("c")]);
    assert_eq!(all(b"a|b"), vec![word("a"), plain(TokenType::Pipe, "|")]);
    assert_eq!(all(b"a||b c"), vec![word("a"), plain(TokenType::DoublePipe, "||"), word("c")]);
}

#[test]
fn variables() {
    assert_eq!(all(b"echo $HOME x"), vec![word("echo"), plain(TokenType::Variable, "HOME"), word("x")]);
    assert_eq!(all(b"$"), vec![plain(TokenType::Variable, "")]);
    assert_eq!(all(b"$a;"), vec![plain(TokenType::Variable, "a"), plain(TokenType::SemiColon, ";")]);
}

#[test]
fn assignments_carry_a_value() {
    let mut lexer = Lexer::new(b"a=b x".to_vec());
    assert_eq!(lexer.next(), assignment("a", "b"));
    assert_eq!(lexer.next(), token(TokenType::Identifier, "x"));
    assert_eq!(lexer.next(), None);
    let mut lexer = Lexer::new(b"name=".to_vec());
    assert_eq!(lexer.next(), assignment("name", ""));
    let mut lexer = Lexer::new(b"p=/usr/bin;".to_vec());
    assert_eq!(lexer.next(), assignment("p", "/usr/bin"));
    assert_eq!(lexer.next(), token(TokenType::SemiColon, ";"));
}

#[test]
fn the_value_of_an_assignment_is_never_emptied() {
    let mut lexer = Lexer::new(b"a=b c=d".to_vec());
    assert_eq!(lexer.next(), assignment("a", "b"));
    assert_eq!(lexer.next(), assignment("c", "bd"));
}

#[test]
fn strings_are_identifiers() {
    assert_eq!(all(b"\"hello world\" x"), vec![word("hello world"), word("x")]);
    assert_eq!(all(b"\"\""), vec![word("")]);
    assert_eq!(all(b"\"a;b&c\""), vec![word("a;b&c")]);
    assert_eq!(all(b"\"open"), vec![word("open")]);
    assert_eq!(all(b"\"a\0b\""), vec![word("a"), word("b"), word("")]);
}

#[test]
fn characters_that_start_no_token_are_errors() {
    assert_eq!(all(b"a ! b"), vec![word("a"), Err(LexError::Unexpected('!')), word("b")]);
    assert_eq!(all(b"("), vec![Err(LexError::Unexpected('('))]);
    assert_eq!(all(b"=x"), vec![Err(LexError::Unexpected('=')), word("x")]);
    assert_eq!(all(&[0x80]), vec![Err(LexError::Unexpected('\u{80}'))]);
}

#[test]
fn bytes_are_read_as_latin_1() {
    assert_eq!(all(b"caf\xe9 \xb2"), vec![word("caf\u{e9}"), word("\u{b2}")]);
    assert_eq!(all(b"a\xa0b\x85c"), vec![word("a"), word("b"), word("c")]);
    assert_eq!(all(b"a\xd7b"), vec![word("a"), Err(LexError::Unexpected('\u{d7}')), word("b")]);
}

#[test]
fn a_failed_read_is_reported_where_it_happens() {
    let mut lexer = Lexer::with_failure(b"ls ".to_vec(), "boom".to_string());
    assert_eq!(lexer.next(), token(TokenType::Identifier, "ls"));
    assert_eq!(lexer.next(), Some(Err(LexError::IO("boom".to_string()))));
    assert_eq!(lexer.next(), Some(Err(LexError::IO("boom".to_string()))));
    let mut lexer = Lexer::with_failure(b"ls".to_vec(), "gone".to_string());
    assert_eq!(lexer.next(), Some(Err(LexError::IO("gone".to_string()))));
    let mut lexer = Lexer::with_failure(Vec::new(), "empty".to_string());
    assert_eq!(lexer.try_next(), Some(Some(Err(LexError::IO("empty".to_string())))));
}

#[test]
fn a_nul_byte_where_a_token_starts_stalls_the_lexer() {
    let mut lexer = Lexer::new(b"a \0 b".to_vec());
    assert!(!lexer.stalls());
    assert_eq!(lexer.try_next(), Some(token(TokenType::Identifier, "a")));
    assert!(lexer.stalls());
    assert_eq!(lexer.try_next(), None);
    assert_eq!(lexer.try_next(), None);
    assert!(Lexer::new(vec![0]).stalls());
    assert!(Lexer::new(b" \t\0".to_vec()).stalls());
    assert!(!Lexer::new(b"a\0".to_vec()).stalls());
    assert!(!Lexer::new(b"".to_vec()).stalls());
    assert!(!Lexer::new(b"   ".to_vec()).stalls());
}

#[test]
fn a_nul_byte_ends_a_word() {
    let mut lexer = Lexer::new(b"ab\0".to_vec());
    assert_eq!(lexer.try_next(), Some(token(TokenType::Identifier, "ab")));
    assert_eq!(lexer.try_next(), None);
}

#[test]
fn name_characters() {
    for c in ['a', 'Z', '0', '9', '_', '-', '/', '.', '~', '\u{e9}', '\u{3b1}', '\u{663}'] {
        assert!(is_name_char(c), "{:?}", c);
    }
    for c in [' ', '\n', ';', '&', '|', '$', '"', '=', '\0', '!', '+', '\u{d7}', '\u{a0}'] {
        assert!(!is_name_char(c), "{:?}", c);
    }
}

#[test]
fn single_char_consumes_one_byte() {
    let mut lexer = Lexer::new(b";x".to_vec());
    assert_eq!(lexer.get_next_char(), Ok(Some(0x3b)));
    assert_eq!(lexer.single_char(TokenType::SemiColon, ";"), token(TokenType::SemiColon, ";"));
    assert_eq!(lexer.get_next_char(), Ok(Some(0x78)));
    assert_eq!(lexer.single_char(TokenType::And, "&"), token(TokenType::And, "&"));
    assert_eq!(lexer.get_next_char(), Ok(None));
    assert_eq!(lexer.single_char(TokenType::Pipe, "|"), token(TokenType::Pipe, "|"));
    assert_eq!(lexer.get_next_char(), Ok(None));
}

#[test]
fn get_next_char_does_not_consume() {
    let mut lexer = Lexer::with_failure(b"q".to_vec(), "late".to_string());
    assert_eq!(lexer.get_next_char(), Ok(Some(0x71)));
    assert_eq!(lexer.get_next_char(), Ok(Some(0x71)));
    assert_eq!(lexer.handle_char('q'), None);
    assert_eq!(lexer.handle_char('q'), None);
    assert_eq!(lexer.get_next_char(), Err("late".to_string()));
    assert_eq!(lexer.handle_char(' '), token(TokenType::Identifier, "q"));
}

#[test]
fn handle_char_steps_the_state_machine() {
    let mut lexer = Lexer::new(b"$ab ".to_vec());
    assert_eq!(lexer.handle_char('$'), None);
    assert_eq!(lexer.handle_char('a'), None);
    assert_eq!(lexer.handle_char('b'), None);
    assert_eq!(lexer.get_next_char(), Ok(Some(0x20)));
    assert_eq!(lexer.handle_char(' '), token(TokenType::Variable, "ab"));
    assert_eq!(lexer.get_next_char(), Ok(Some(0x20)));
    let mut lexer = Lexer::new(b"#".to_vec());
    assert_eq!(lexer.handle_char('#'), Some(Err(LexError::Unexpected('#'))));
    assert_eq!(lexer.get_next_char(), Ok(None));
    let mut lexer = Lexer::new(Vec::new());
    assert_eq!(lexer.handle_char('\0'), None);
}
