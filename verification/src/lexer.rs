//! The lexer of the shell's command language: a state machine over the bytes
//! of a script that yields one token per call.

use vstd::prelude::*;
use crate::token_source::{Token, TokenType, TokenView};

verus! {

/// Where the lexer stands inside a token.
#[derive(Clone, Copy, PartialEq, Eq, Structural, Debug)]
pub enum State {
    Initial,
    Name,
    And,
    Pipe,
    Variable,
    Assignement,
    String,
}

/// Why the lexer could not produce a token.
#[derive(Clone, Debug, PartialEq, Eq)]
pub enum LexError {
    /// Reading the source failed, with the reader's message.
    IO(String),
    /// A character that starts no token.
    Unexpected(char),
}

/// The abstract value of a [`LexError`].
pub ghost enum LexErrorView {
    IO(Seq<char>),
    Unexpected(char),
}

impl View for LexError {
    type V = LexErrorView;

    open spec fn view(&self) -> LexErrorView {
        match self {
            LexError::IO(message) => LexErrorView::IO(message@),
            LexError::Unexpected(c) => LexErrorView::Unexpected(*c),
        }
    }
}

/// What one step of the lexer yields: nothing yet, a token, or an error.
pub type Outcome = Option<Result<TokenView, LexErrorView>>;

/// The abstract value of what the lexer hands out.
pub open spec fn outcome_view(outcome: Option<Result<Token, LexError>>) -> Outcome {
    match outcome {
        None => None,
        Some(Ok(token)) => Some(Ok(token@)),
        Some(Err(error)) => Some(Err(error@)),
    }
}

/// What `char::is_whitespace` returns for `c`: whether `c` has the Unicode
/// property `White_Space`.
pub uninterp spec fn char_is_whitespace(c: char) -> bool;

/// What `char::is_alphanumeric` returns for `c`: whether `c` is alphabetic
/// or numeric by its Unicode properties.
pub uninterp spec fn char_is_alphanumeric(c: char) -> bool;

/// Calls `char::is_whitespace`; the result is named, not stated.
#[verifier::external_body]
fn is_whitespace(c: char) -> (whitespace: bool)
    ensures
        whitespace == char_is_whitespace(c),
{
    c.is_whitespace()
}

/// Calls `char::is_alphanumeric`; the result is named, not stated.
#[verifier::external_body]
fn is_alphanumeric(c: char) -> (alphanumeric: bool)
    ensures
        alphanumeric == char_is_alphanumeric(c),
{
    c.is_alphanumeric()
}

/// Calls `String::push`, which appends one character to the string.
#[verifier::external_body]
fn push_char(text: &mut String, c: char)
    ensures
        final(text)@ == old(text)@.push(c),
{
    text.push(c)
}

/// Whether `c` can stand in a name: a letter, a digit, or one of `_ - / . ~`.
pub open spec fn name_char(c: char) -> bool {
    char_is_alphanumeric(c) || c == '_' || c == '-' || c == '/' || c == '.' || c == '~'
}

/// Whether `c` can stand in a name: a letter, a digit, or one of `_ - / . ~`.
pub fn is_name_char(c: char) -> (is_name: bool)
    ensures
        is_name == name_char(c),
{
    is_alphanumeric(c) || c == '_' || c == '-' || c == '/' || c == '.' || c == '~'
}

/// The abstract value of a [`Lexer`].
pub ghost struct LexerModel {
    /// The bytes of the script.
    pub source: Seq<u8>,
    /// The error that every read past the last byte meets, if any.
    pub failure: Option<Seq<char>>,
    /// How many bytes have been consumed.
    pub position: int,
    pub state: State,
    /// The text of the token being read.
    pub buffer: Seq<char>,
    /// The value of the assignment being read.
    pub value_buffer: Seq<char>,
}

/// A token without a value.
pub open spec fn plain_token(token_type: TokenType, data: Seq<char>) -> Outcome {
    Some(Ok(TokenView { token_type, data, value: None }))
}

impl LexerModel {
    /// Whether a byte is left to read.
    pub open spec fn has_byte(self) -> bool {
        0 <= self.position < self.source.len()
    }

    /// The character under the lexer's eye: the next byte, or NUL at the end
    /// of the source.
    pub open spec fn current(self) -> char {
        if self.has_byte() {
            self.source[self.position] as char
        } else {
            '\0'
        }
    }

    /// Steps over the next byte; at the end of the source nothing moves.
    pub open spec fn consume(self) -> LexerModel {
        if self.has_byte() {
            LexerModel { position: self.position + 1, ..self }
        } else {
            self
        }
    }

    pub open spec fn enter(self, state: State) -> LexerModel {
        LexerModel { state, ..self }
    }

    pub open spec fn keep(self, c: char) -> LexerModel {
        LexerModel { buffer: self.buffer.push(c), ..self }
    }

    pub open spec fn keep_value(self, c: char) -> LexerModel {
        LexerModel { value_buffer: self.value_buffer.push(c), ..self }
    }

    /// One step of the state machine on the character `c`: the next state
    /// of the lexer, and the token or error that the step completes, if any.
    ///
    /// Between tokens whitespace is skipped; a name character starts a
    /// name, `&`, `|`, `$` and `"` start an operator, a variable and a
    /// string; `;` is a token by itself; NUL is left where it is; any other
    /// character is consumed and reported. A name ends before the first
    /// character that cannot stand in a name, unless that is `=`, which
    /// turns the name into an assignment whose value is read the same way.
    /// After `&` or `|` the next character is consumed whatever it is, and
    /// if it doubles the operator, so is the one after it. A variable is the
    /// name behind `$`. A string runs to the closing quote or to NUL.
    pub open spec fn handle_char(self, c: char) -> (LexerModel, Outcome) {
        match self.state {
            State::Initial => {
                if char_is_whitespace(c) {
                    (self.consume(), None)
                } else if name_char(c) {
                    (self.enter(State::Name), None)
                } else if c == ';' || c == '\n' {
                    (self.consume(), plain_token(TokenType::SemiColon, seq![';']))
                } else if c == '&' {
                    (self.consume().enter(State::And), None)
                } else if c == '|' {
                    (self.consume().enter(State::Pipe), None)
                } else if c == '$' {
                    (self.consume().enter(State::Variable), None)
                } else if c == '"' {
                    (self.consume().enter(State::String), None)
                } else if c == '\0' {
                    (self, None)
                } else {
                    (self.consume(), Some(Err(LexErrorView::Unexpected(c))))
                }
            },
            State::Name => {
                if name_char(c) {
                    (self.keep(c).consume(), None)
                } else if c == '=' {
                    (self.consume().enter(State::Assignement), None)
                } else {
                    (self, plain_token(TokenType::Identifier, self.buffer))
                }
            },
            State::And => {
                if c == '&' {
                    (self.consume().consume(), plain_token(TokenType::DoubleAnd, seq!['&', '&']))
                } else {
                    (self.consume(), plain_token(TokenType::And, seq!['&']))
                }
            },
            State::Pipe => {
                if c == '|' {
                    (self.consume().consume(), plain_token(TokenType::DoublePipe, seq!['|', '|']))
                } else {
                    (self.consume(), plain_token(TokenType::Pipe, seq!['|']))
                }
            },
            State::Variable => {
                if name_char(c) {
                    (self.keep(c).consume(), None)
                } else {
                    (self, plain_token(TokenType::Variable, self.buffer))
                }
            },
            State::Assignement => {
                if name_char(c) {
                    (self.keep_value(c).consume(), None)
                } else {
                    (
                        self,
                        Some(
                            Ok(
                                TokenView {
                                    token_type: TokenType::Assignement,
                                    data: self.buffer,
                                    value: Some(self.value_buffer),
                                },
                            ),
                        ),
                    )
                }
            },
            State::String => {
                if c == '"' || c == '\0' {
                    (self.consume(), plain_token(TokenType::Identifier, self.buffer))
                } else {
                    (self.consume().keep(c), None)
                }
            },
        }
    }

    /// What reading the next character gives: the reader's error, the next
    /// byte, or nothing at the end of the source.
    pub open spec fn next_char(self) -> Result<Option<u8>, Seq<char>> {
        if self.has_byte() {
            Ok(Some(self.source[self.position]))
        } else {
            match self.failure {
                Some(message) => Err(message),
                None => Ok(None),
            }
        }
    }

    /// Whether a step brought the lexer closer to the end of its token: it
    /// consumed a byte, or left the initial state.
    pub open spec fn advanced(self, after: LexerModel) -> bool {
        after.position > self.position || (self.state == State::Initial && after.state
            != State::Initial)
    }

    /// Steps from the current state until a token or an error is complete or
    /// the source ends.
    pub open spec fn scan(self) -> (LexerModel, Outcome)
        decreases
                self.source.len() - self.position,
                (if self.state == State::Initial {
                    1int
                } else {
                    0int
                }),
    {
        match self.next_char() {
            Err(message) => (self, Some(Err(LexErrorView::IO(message)))),
            Ok(byte) => {
                let (after, outcome) = self.handle_char(self.current());
                if outcome is Some || byte is None || !self.advanced(after) {
                    (after, outcome)
                } else {
                    after.scan()
                }
            },
        }
    }

    /// The lexer as it starts on a token: in the initial state, with an
    /// empty text. The value of an earlier assignment stays.
    pub open spec fn restart(self) -> LexerModel {
        LexerModel { state: State::Initial, buffer: Seq::empty(), ..self }
    }

    /// The next token of the source: `None` at its end.
    pub open spec fn next(self) -> (LexerModel, Outcome) {
        self.restart().scan()
    }

    /// Whether the lexer cannot get past the next byte: after the whitespace
    /// that it skips stands a NUL byte, which starts no token and is never
    /// consumed.
    pub open spec fn stalls(self) -> bool
        decreases self.source.len() - self.position,
    {
        self.has_byte() && {
            let c = self.current();
            if char_is_whitespace(c) {
                self.consume().stalls()
            } else {
                !name_char(c) && c == '\0'
            }
        }
    }
}

/// Whether the lexer stalls depends on the source and the position alone.
pub proof fn lemma_stalls_by_source(a: LexerModel, b: LexerModel)
    requires
        a.source == b.source,
        a.position == b.position,
    ensures
        a.stalls() == b.stalls(),
    decreases a.source.len() - a.position,
{
    if a.has_byte() && char_is_whitespace(a.current()) {
        lemma_stalls_by_source(a.consume(), b.consume());
    }
}

/// A lexer over the bytes of a script.
pub struct Lexer {
    source: Vec<u8>,
    failure: Option<String>,
    position: usize,
    state: State,
    buffer: String,
    value_buffer: String,
}

impl View for Lexer {
    type V = LexerModel;

    closed spec fn view(&self) -> LexerModel {
        LexerModel {
            source: self.source@,
            failure: match self.failure {
                Some(message) => Some(message@),
                None => None,
            },
            position: self.position as int,
            state: self.state,
            buffer: self.buffer@,
            value_buffer: self.value_buffer@,
        }
    }
}

/// A token without a value, as the lexer hands it out.
fn emit(token_type: TokenType, data: &str) -> (outcome: Option<Result<Token, LexError>>)
    ensures
        outcome_view(outcome) == plain_token(token_type, data@),
{
    match Token::new(token_type, data) {
        Some(token) => Some(Ok(token)),
        None => None,
    }
}

impl Lexer {
    /// A lexer at the start of `source`, whose end is the end of the script.
    pub fn new(source: Vec<u8>) -> (lexer: Self)
        ensures
            lexer@ == (LexerModel {
                source: source@,
                failure: None,
                position: 0,
                state: State::Initial,
                buffer: Seq::empty(),
                value_buffer: Seq::empty(),
            }),
    {
        Self {
            source,
            failure: None,
            position: 0,
            state: State::Initial,
            buffer: String::new(),
            value_buffer: String::new(),
        }
    }

    /// A lexer at the start of `source`, for a script whose reader failed
    /// with `message` after these bytes.
    pub fn with_failure(source: Vec<u8>, message: String) -> (lexer: Self)
        ensures
            lexer@ == (LexerModel {
                source: source@,
                failure: Some(message@),
                position: 0,
                state: State::Initial,
                buffer: Seq::empty(),
                value_buffer: Seq::empty(),
            }),
    {
        Self {
            source,
            failure: Some(message),
            position: 0,
            state: State::Initial,
            buffer: String::new(),
            value_buffer: String::new(),
        }
    }

    /// Steps over the next byte, if there is one.
    fn advance(&mut self)
        ensures
            final(self)@ == old(self)@.consume(),
    {
        if self.position < self.source.len() {
            self.position = self.position + 1;
        }
    }

    /// Steps over the next byte and hands out a token without a value.
    pub fn single_char(&mut self, token_type: TokenType, name: &str) -> (outcome: Option<
        Result<Token, LexError>,
    >)
        ensures
            final(self)@ == old(self)@.consume(),
            outcome_view(outcome) == plain_token(token_type, name@),
    {
        self.advance();
        emit(token_type, name)
    }

    /// One step of the state machine on the character `c`.
    pub fn handle_char(&mut self, c: char) -> (outcome: Option<Result<Token, LexError>>)
        ensures
            (final(self)@, outcome_view(outcome)) == old(self)@.handle_char(c),
    {
        proof {
            reveal_strlit(";");
            reveal_strlit("&");
            reveal_strlit("&&");
            reveal_strlit("|");
            reveal_strlit("||");
            assert(";"@ =~= seq![';']);
            assert("&"@ =~= seq!['&']);
            assert("&&"@ =~= seq!['&', '&']);
            assert("|"@ =~= seq!['|']);
            assert("||"@ =~= seq!['|', '|']);
        }
        match self.state {
            State::Initial => {
                if is_whitespace(c) {
                    self.advance();
                } else if is_name_char(c) {
                    self.state = State::Name;
                } else if c == ';' || c == '\n' {
                    return self.single_char(TokenType::SemiColon, ";");
                } else if c == '&' {
                    self.advance();
                    self.state = State::And;
                } else if c == '|' {
                    self.advance();
                    self.state = State::Pipe;
                } else if c == '$' {
                    self.advance();
                    self.state = State::Variable;
                } else if c == '"' {
                    self.advance();
                    self.state = State::String;
                } else if c == '\0' {
                    return None;
                } else {
                    self.advance();
                    return Some(Err(LexError::Unexpected(c)));
                }
            },
            State::Name => {
                if !is_name_char(c) {
                    if c != '=' {
                        return emit(TokenType::Identifier, self.buffer.as_str());
                    }
                    self.advance();
                    self.state = State::Assignement;
                } else {
                    push_char(&mut self.buffer, c);
                    self.advance();
                }
            },
            State::And => {
                self.advance();
                if c != '&' {
                    return emit(TokenType::And, "&");
                }
                self.advance();
                return emit(TokenType::DoubleAnd, "&&");
            },
            State::Pipe => {
                self.advance();
                if c != '|' {
                    return emit(TokenType::Pipe, "|");
                }
                self.advance();
                return emit(TokenType::DoublePipe, "||");
            },
            State::Variable => {
                if !is_name_char(c) {
                    return emit(TokenType::Variable, self.buffer.as_str());
                }
                push_char(&mut self.buffer, c);
                self.advance();
            },
            State::Assignement => {
                if !is_name_char(c) {
                    return Some(
                        Ok(
                            Token {
                                token_type: TokenType::Assignement,
                                data: self.buffer.clone(),
                                value: Some(self.value_buffer.clone()),
                            },
                        ),
                    );
                }
                push_char(&mut self.value_buffer, c);
                self.advance();
            },
            State::String => {
                self.advance();
                if c == '"' || c == '\0' {
                    return emit(TokenType::Identifier, self.buffer.as_str());
                }
                push_char(&mut self.buffer, c);
            },
        }
        None
    }

    /// Looks at the next character without consuming it: the reader's error,
    /// the next byte, or `None` at the end of the source.
    pub fn get_next_char(&mut self) -> (next: Result<Option<u8>, String>)
        ensures
            final(self)@ == old(self)@,
            match next {
                Ok(byte) => old(self)@.next_char() == Ok::<Option<u8>, Seq<char>>(byte),
                Err(message) => old(self)@.next_char() == Err::<Option<u8>, Seq<char>>(message@),
            },
    {
        if self.position < self.source.len() {
            Ok(Some(self.source[self.position]))
        } else {
            match &self.failure {
                Some(message) => Err(message.clone()),
                None => Ok(None),
            }
        }
    }

    /// Whether `next` could not return: see [`LexerModel::stalls`].
    pub fn stalls(&self) -> (stalls: bool)
        ensures
            stalls == self@.stalls(),
    {
        let mut i: usize = self.position;
        while i < self.source.len()
            invariant
                self.position <= i,
                (LexerModel { position: i as int, ..self@ }).stalls() == self@.stalls(),
            decreases self.source.len() - i,
        {
            let c = self.source[i] as char;
            if !is_whitespace(c) {
                return !is_name_char(c) && c == '\0';
            }
            i = i + 1;
        }
        false
    }

    /// Reads the next token: `None` at the end of the source, an error for
    /// a character that starts no token or for a failed read. The source must
    /// not present a NUL byte where a token would start: the lexer never
    /// consumes it.
    pub fn next(&mut self) -> (outcome: Option<Result<Token, LexError>>)
        requires
            !old(self)@.stalls(),
        ensures
            (final(self)@, outcome_view(outcome)) == old(self)@.next(),
    {
        self.state = State::Initial;
        self.buffer = String::new();
        proof {
            lemma_stalls_by_source(old(self)@, self@);
        }
        let ghost start = self@;
        loop
            invariant
                start == old(self)@.restart(),
                self@.scan() == start.scan(),
                self@.state == State::Initial ==> !self@.stalls(),
            decreases
                    self@.source.len() - self@.position,
                    (if self@.state == State::Initial {
                        1int
                    } else {
                        0int
                    }),
        {
            let ghost before = self@;
            let next_or_error = self.get_next_char();
            match next_or_error {
                Err(message) => {
                    return Some(Err(LexError::IO(message)));
                },
                Ok(next_or_none) => {
                    let next: u8 = match next_or_none {
                        Some(byte) => byte,
                        None => 0,
                    };
                    let token = self.handle_char(next as char);
                    if token.is_none() {
                        if next_or_none.is_none() {
                            return None;
                        }
                        assert(before.advanced(self@));
                        continue ;
                    }
                    return token;
                },
            }
        }
    }

    /// Reads the next token where the lexer can get past the next byte.
    /// Where it stalls, nothing is read and the result is `None`; otherwise
    /// the result is `Some` of what `next` returns.
    pub fn try_next(&mut self) -> (outcome: Option<Option<Result<Token, LexError>>>)
        ensures
            old(self)@.stalls() ==> outcome is None && final(self)@ == old(self)@,
            !old(self)@.stalls() ==> outcome is Some && (final(self)@, outcome_view(
                outcome.unwrap(),
            )) == old(self)@.next(),
    {
        if self.stalls() {
            None
        } else {
            Some(self.next())
        }
    }
}

} // verus!
