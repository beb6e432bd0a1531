//! The tokens of the shell's command language and the interface of a token
//! stream.

use vstd::prelude::*;

verus! {

#[derive(Clone, Copy, PartialEq, Eq, Structural, Debug)]
pub enum TokenType {
    Identifier,
    SemiColon,
    And,
    DoubleAnd,
    Pipe,
    DoublePipe,
    Variable,
    Assignement,
}

/// A token: its kind, its text and, for an assignment, the assigned value.
#[derive(Clone, Debug, PartialEq, Eq)]
pub struct Token {
    pub token_type: TokenType,
    pub data: String,
    pub value: Option<String>,
}

/// The abstract value of a token, with its texts as character sequences.
pub ghost struct TokenView {
    pub token_type: TokenType,
    pub data: Seq<char>,
    pub value: Option<Seq<char>>,
}

impl View for Token {
    type V = TokenView;

    open spec fn view(&self) -> TokenView {
        TokenView {
            token_type: self.token_type,
            data: self.data@,
            value: match self.value {
                Some(value) => Some(value@),
                None => None,
            },
        }
    }
}

/// Whether a token of this kind can be a word of a command.
pub open spec fn is_command_type(token_type: TokenType) -> bool {
    token_type == TokenType::Identifier || token_type == TokenType::Variable
}

impl Token {
    /// A token of the given kind and text, without a value. Always `Some`.
    pub fn new(token_type: TokenType, data: &str) -> (token: Option<Self>)
        ensures
            token matches Some(token) && token@ == (TokenView {
                token_type,
                data: data@,
                value: None,
            }),
    {
        Some(Self { token_type, data: data.to_owned(), value: None })
    }

    /// Whether the token can be a word of a command: an identifier or a
    /// variable.
    pub fn is_command_token(&self) -> (is_command: bool)
        ensures
            is_command == is_command_type(self@.token_type),
    {
        self.token_type == TokenType::Identifier || self.token_type == TokenType::Variable
    }
}

/// What a token stream reports when the next token is not the expected one.
#[derive(Clone, Debug, PartialEq, Eq)]
pub struct TokenError {
    pub expected: String,
    pub got: String,
}

impl TokenError {
    pub fn new(expected: &str, got: &str) -> (error: Self)
        ensures
            error.expected@ == expected@,
            error.got@ == got@,
    {
        Self { expected: expected.to_owned(), got: got.to_owned() }
    }
}

/// A stream of tokens with lookahead, as a parser consumes it.
pub trait TokenSource {
    /// The token `count` places ahead, without consuming anything.
    fn peek(&mut self, count: usize) -> Option<Token>;

    /// Takes the next token off the stream.
    fn consume(&mut self) -> Option<Token>;

    /// Takes the next token off the stream if it has the given kind, and
    /// reports what was found instead if it has not.
    fn expect(&mut self, token_type: TokenType, name: &str) -> Result<Token, TokenError>;
}

} // verus!
