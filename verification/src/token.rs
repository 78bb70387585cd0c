//! Lexical units: the closed set of token kinds and the positioned token.

use vstd::prelude::*;

use crate::value::LiteralValue;
use crate::value::ValueV;
use crate::value::clone_bytes;
use vstd::slice::slice_to_vec;
use vstd::string::StringExecFns;

verus! {

/// The closed set of token kinds the lexer can produce.
#[derive(PartialEq, Eq, Structural, Clone, Copy, Debug, Hash)]
pub enum TokenType {
    // Literals
    NumericLiteral,
    StringLiteral,
    Identifier,
    // Punctuation
    Comma,
    Dot,
    Bang,
    Question,
    Interrobang,
    Semicolon,
    Colon,
    // Parens
    LeftParen,
    RightParen,
    // Arithmetic
    Plus,
    Minus,
    Slash,
    Star,
    Mod,
    Ellipsis,
    // Control flow
    If,
    Therefore,
    // Comparison
    EqTo,
    NeqTo,
    Or,
    Not,
    And,
    Less,
    Greater,
    LessEq,
    GreaterEq,
    // Keywords
    False,
    True,
    NoneKw,
    You,
    Assignment,
    Declaration,
    IdKeyword,
    // Sentinels
    Whitespace,
    EOF,
    Invalid,
}

impl TokenType {
    /// The display name of each kind.
    pub open spec fn kind_name(self) -> Seq<char> {
        match self {
            TokenType::NumericLiteral => "NumericLiteral"@,
            TokenType::StringLiteral => "StringLiteral"@,
            TokenType::Identifier => "Identifier"@,
            TokenType::Comma => ","@,
            TokenType::Dot => "."@,
            TokenType::Bang => "!"@,
            TokenType::Question => "?"@,
            TokenType::Interrobang => "\u{203D}"@,
            TokenType::LeftParen => "("@,
            TokenType::RightParen => ")"@,
            TokenType::Plus => "+"@,
            TokenType::Minus => "-"@,
            TokenType::Star => "*"@,
            TokenType::Slash => "/"@,
            TokenType::Mod => "%"@,
            TokenType::Colon => ":"@,
            TokenType::Semicolon => ";"@,
            TokenType::Ellipsis => "..."@,
            TokenType::If => "If"@,
            TokenType::Therefore => "Therefore"@,
            TokenType::And => "And"@,
            TokenType::Or => "Or"@,
            TokenType::Not => "Not"@,
            TokenType::EqTo => "=="@,
            TokenType::NeqTo => "!="@,
            TokenType::Less => "<"@,
            TokenType::LessEq => "<="@,
            TokenType::Greater => ">"@,
            TokenType::GreaterEq => ">="@,
            TokenType::True => "True"@,
            TokenType::False => "False"@,
            TokenType::You => "You"@,
            TokenType::NoneKw => "None"@,
            TokenType::IdKeyword => "Id Keyword"@,
            TokenType::Declaration => "Declaration"@,
            TokenType::Assignment => "Assignment"@,
            TokenType::Whitespace => "Whitespace"@,
            TokenType::EOF => "EOF"@,
            TokenType::Invalid => "Error"@,
        }
    }

    /// Renders the kind under its display name.
    pub fn to_string(&self) -> (r: String)
        ensures
            r@ == self.kind_name(),
    {
        match self {
            TokenType::NumericLiteral => String::from_str("NumericLiteral"),
            TokenType::StringLiteral => String::from_str("StringLiteral"),
            TokenType::Identifier => String::from_str("Identifier"),
            TokenType::Comma => String::from_str(","),
            TokenType::Dot => String::from_str("."),
            TokenType::Bang => String::from_str("!"),
            TokenType::Question => String::from_str("?"),
            TokenType::Interrobang => String::from_str("\u{203D}"),
            TokenType::LeftParen => String::from_str("("),
            TokenType::RightParen => String::from_str(")"),
            TokenType::Plus => String::from_str("+"),
            TokenType::Minus => String::from_str("-"),
            TokenType::Star => String::from_str("*"),
            TokenType::Slash => String::from_str("/"),
            TokenType::Mod => String::from_str("%"),
            TokenType::Colon => String::from_str(":"),
            TokenType::Semicolon => String::from_str(";"),
            TokenType::Ellipsis => String::from_str("..."),
            TokenType::If => String::from_str("If"),
            TokenType::Therefore => String::from_str("Therefore"),
            TokenType::And => String::from_str("And"),
            TokenType::Or => String::from_str("Or"),
            TokenType::Not => String::from_str("Not"),
            TokenType::EqTo => String::from_str("=="),
            TokenType::NeqTo => String::from_str("!="),
            TokenType::Less => String::from_str("<"),
            TokenType::LessEq => String::from_str("<="),
            TokenType::Greater => String::from_str(">"),
            TokenType::GreaterEq => String::from_str(">="),
            TokenType::True => String::from_str("True"),
            TokenType::False => String::from_str("False"),
            TokenType::You => String::from_str("You"),
            TokenType::NoneKw => String::from_str("None"),
            TokenType::IdKeyword => String::from_str("Id Keyword"),
            TokenType::Declaration => String::from_str("Declaration"),
            TokenType::Assignment => String::from_str("Assignment"),
            TokenType::Whitespace => String::from_str("Whitespace"),
            TokenType::EOF => String::from_str("EOF"),
            TokenType::Invalid => String::from_str("Error"),
        }
    }
}

/// Mathematical model of a token.
pub struct TokenV {
    pub token_type: TokenType,
    pub val: ValueV,
    pub raw: Seq<u8>,
    pub line: nat,
    pub start: nat,
}

impl TokenV {
    /// The byte offset one past the matched text.
    pub open spec fn end(self) -> nat {
        self.start + self.raw.len()
    }
}

/// A lexical unit: its kind, its payload, the raw matched bytes, and its
/// source position (line and byte offset of the match's start).
pub struct Token {
    pub token_type: TokenType,
    pub val: LiteralValue,
    pub raw: Vec<u8>,
    pub line: usize,
    pub start: usize,
}

impl View for Token {
    type V = TokenV;

    open spec fn view(&self) -> TokenV {
        TokenV {
            token_type: self.token_type,
            val: self.val@,
            raw: self.raw@,
            line: self.line as nat,
            start: self.start as nat,
        }
    }
}

impl Token {
    pub fn new(
        tkn_type: TokenType,
        val: LiteralValue,
        raw: &[u8],
        line: usize,
        start: usize,
    ) -> (r: Token)
        ensures
            r@ == (TokenV {
                token_type: tkn_type,
                val: val@,
                raw: raw@,
                line: line as nat,
                start: start as nat,
            }),
    {
        Token { token_type: tkn_type, val, raw: slice_to_vec(raw), line, start }
    }

    /// The placeholder token that stands where no token could be read.
    pub fn invalid() -> (r: Token)
        ensures
            r@ == (TokenV {
                token_type: TokenType::Invalid,
                val: ValueV::Absent,
                raw: seq![0u8],
                line: 0,
                start: 0,
            }),
    {
        let raw: Vec<u8> = vec![0u8];
        assert(raw@ =~= seq![0u8]);
        Token { token_type: TokenType::Invalid, val: LiteralValue::Absent, raw, line: 0, start: 0 }
    }

    /// Length in bytes of the matched text.
    pub fn len(&self) -> (r: usize)
        ensures
            r == self@.raw.len(),
    {
        self.raw.len()
    }

    /// Byte offset one past the matched text: always the start offset plus
    /// the raw text's length (the span invariant; `laws::lemma_token_span`
    /// states it of every token the lexer reads).
    pub fn end(&self) -> (r: usize)
        requires
            self@.start + self@.raw.len() <= usize::MAX,
        ensures
            r == self@.end(),
            r == self@.start + self@.raw.len(),
    {
        self.start + self.raw.len()
    }

    /// The line the token starts on, counted from zero.
    pub fn line(&self) -> (r: usize)
        ensures
            r == self@.line,
    {
        self.line
    }

    /// Byte offset of the first matched byte.
    pub fn start(&self) -> (r: usize)
        ensures
            r == self@.start,
    {
        self.start
    }
}

impl Clone for Token {
    /// Cloning keeps the model of the token.
    fn clone(&self) -> (r: Self)
        ensures
            r@ == self@,
    {
        Token {
            token_type: self.token_type,
            val: self.val.clone(),
            raw: clone_bytes(&self.raw),
            line: self.line,
            start: self.start,
        }
    }
}

} // verus!
