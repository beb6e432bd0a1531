use terminal::token_source::{Token, TokenError, TokenSource, TokenType};

struct Tokens {
    tokens: Vec<Token>,
}

impl TokenSource for Tokens {
    fn peek(&mut self, count: usize) -> Option<Token> {
        self.tokens.get(count).cloned()
    }

    fn consume(&mut self) -> Option<Token> {
        if self.tokens.is_empty() {
            None
        } else {
            Some(self.tokens.remove(0))
        }
    }

    fn expect(&mut self, token_type: TokenType, name: &str) -> Result<Token, TokenError> {
        match self.consume() {
            Some(token) if token.token_type == token_type => Ok(token),
            Some(token) => Err(TokenError::new(name, &token.data)),
            None => Err(TokenError::new(name, "")),
        }
    }
}

#[test]
fn new_token_has_no_value() {
    let token = Token::new(TokenType::Identifier, "ls").unwrap();
    assert_eq!(token.token_type, TokenType::Identifier);
    assert_eq!(token.data, "ls");
    assert_eq!(token.value, None);
    assert!(Token::new(TokenType::SemiColon, "").is_some());
}

#[test]
fn command_tokens_are_identifiers_and_variables() {
    let command = [TokenType::Identifier, TokenType::Variable];
    let other = [
        TokenType::SemiColon,
        TokenType::And,
        TokenType::DoubleAnd,
        TokenType::Pipe,
        TokenType::DoublePipe,
        TokenType::Assignement,
    ];
    for token_type in command {
        assert!(Token::new(token_type, "x").unwrap().is_command_token());
    }
    for token_type in other {
        assert!(!Token::new(token_type, "x").unwrap().is_command_token());
    }
}

#[test]
fn token_error_keeps_both_texts() {
    let error = TokenError::new("identifier", ";");
    assert_eq!(error.expected, "identifier");
    assert_eq!(error.got, ";");
}

#[test]
fn a_token_source_hands_out_its_tokens() {
    let mut source = Tokens {
        tokens: vec![
            Token::new(TokenType::Identifier, "ls").unwrap(),
            Token::new(TokenType::SemiColon, ";").unwrap(),
        ],
    };
    assert_eq!(source.peek(1), Token::new(TokenType::SemiColon, ";"));
    assert_eq!(source.peek(2), None);
    assert_eq!(source.expect(TokenType::Identifier, "identifier"), Ok(Token::new(TokenType::Identifier, "ls").unwrap()));
    assert_eq!(source.expect(TokenType::Identifier, "identifier"), Err(TokenError::new("identifier", ";")));
    assert_eq!(source.consume(), None);
}
