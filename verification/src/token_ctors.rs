//! The validating token constructors: one for each token kind, each
//! checking that the payload fits the kind (and, for symbols and keyword
//! phrases, that it is one of the texts the kind stands for) and failing
//! with an invalid-token-value error at the given position otherwise.

use vstd::prelude::*;

use crate::error_handler::Error;
use crate::error_handler::ErrorType;
use crate::token::Token;
use crate::token::TokenType;
use crate::token::TokenV;
use crate::value::LiteralValue;
use crate::value::ValueV;

use crate::lexer_lits::lit_and_kw;
use crate::lexer_lits::lit_assign_he;
use crate::lexer_lits::lit_assign_it;
use crate::lexer_lits::lit_assign_she;
use crate::lexer_lits::lit_assign_they;
use crate::lexer_lits::lit_bang;
use crate::lexer_lits::lit_bangq;
use crate::lexer_lits::lit_called;
use crate::lexer_lits::lit_colon;
use crate::lexer_lits::lit_comma;
use crate::lexer_lits::lit_declaration_cap;
use crate::lexer_lits::lit_declaration_lc;
use crate::lexer_lits::lit_dot;
use crate::lexer_lits::lit_ellipsis;
use crate::lexer_lits::lit_eq_to;
use crate::lexer_lits::lit_false_kw;
use crate::lexer_lits::lit_greater;
use crate::lexer_lits::lit_greater_eq;
use crate::lexer_lits::lit_if_cap;
use crate::lexer_lits::lit_if_lc;
use crate::lexer_lits::lit_interrobang;
use crate::lexer_lits::lit_labelled;
use crate::lexer_lits::lit_less;
use crate::lexer_lits::lit_less_eq;
use crate::lexer_lits::lit_lparen;
use crate::lexer_lits::lit_minus;
use crate::lexer_lits::lit_named;
use crate::lexer_lits::lit_neq_to;
use crate::lexer_lits::lit_neq_to_apos;
use crate::lexer_lits::lit_none_kw;
use crate::lexer_lits::lit_not_apos;
use crate::lexer_lits::lit_not_kw;
use crate::lexer_lits::lit_or_kw;
use crate::lexer_lits::lit_percent;
use crate::lexer_lits::lit_plus;
use crate::lexer_lits::lit_qbang;
use crate::lexer_lits::lit_question;
use crate::lexer_lits::lit_rparen;
use crate::lexer_lits::lit_semicolon;
use crate::lexer_lits::lit_slash;
use crate::lexer_lits::lit_star;
use crate::lexer_lits::lit_therefore_cap;
use crate::lexer_lits::lit_therefore_lc;
use crate::lexer_lits::lit_true_kw;
use crate::lexer_lits::lit_you_kw;

verus! {

/// Byte-wise comparison of a payload against an expected byte string.
fn bytes_match(v: &Vec<u8>, lit: &[u8]) -> (r: bool)
    ensures
        r == (v@ == lit@),
{
    if v.len() != lit.len() {
        assert(v@.len() != lit@.len());
        return false;
    }
    let n = v.len();
    let mut i: usize = 0;
    while i < n
        invariant
            n == v@.len() == lit@.len(),
            i <= n,
            forall|k: int| 0 <= k < i ==> v@[k] == lit@[k],
        decreases n - i,
    {
        if v[i] != lit[i] {
            return false;
        }
        i += 1;
    }
    assert(v@ =~= lit@);
    true
}

/// Builds the token when the payload check held, and the invalid-value
/// error at the given position when it did not.
fn checked_token(
    kind: TokenType,
    ok: bool,
    val: LiteralValue,
    raw: &[u8],
    line: usize,
    start: usize,
) -> (r: Result<Token, Error>)
    ensures
        match r {
            Ok(t) => ok && t@ == (TokenV {
                token_type: kind,
                val: val@,
                raw: raw@,
                line: line as nat,
                start: start as nat,
            }),
            Err(e) => !ok && e == (Error {
                error_type: ErrorType::InvalidTokenValue,
                line,
                position: start,
            }),
        },
{
    if ok {
        Ok(Token::new(kind, val, raw, line, start))
    } else {
        Err(Error::new(ErrorType::InvalidTokenValue, line, start))
    }
}

impl Token {

    /// A comma symbol token; the payload must be the fitting `Symbol` text.
    pub fn new_comma(val: LiteralValue, raw: &[u8], line: usize, start: usize) -> (r: Result<
        Token,
        Error,
    >)
        ensures
            match r {
                Ok(t) => (val@ matches ValueV::Symbol(s) && (s == lit_comma())) && t@ == (TokenV {
                    token_type: TokenType::Comma,
                    val: val@,
                    raw: raw@,
                    line: line as nat,
                    start: start as nat,
                }),
                Err(e) => !(val@ matches ValueV::Symbol(s) && (s == lit_comma())) && e == (Error {
                    error_type: ErrorType::InvalidTokenValue,
                    line,
                    position: start,
                }),
            },
    {
        let ok = match &val {
            LiteralValue::Symbol(s) => {
                ({
                    let lit: [u8; 1] = [44];
                    proof {
                        assert(lit@ =~= lit_comma());
                    }
                    bytes_match(s, lit.as_slice())
                })
            },
            _ => false,
        };
        checked_token(TokenType::Comma, ok, val, raw, line, start)
    }

    /// A dot symbol token; the payload must be the fitting `Symbol` text.
    pub fn new_dot(val: LiteralValue, raw: &[u8], line: usize, start: usize) -> (r: Result<
        Token,
        Error,
    >)
        ensures
            match r {
                Ok(t) => (val@ matches ValueV::Symbol(s) && (s == lit_dot())) && t@ == (TokenV {
                    token_type: TokenType::Dot,
                    val: val@,
                    raw: raw@,
                    line: line as nat,
                    start: start as nat,
                }),
                Err(e) => !(val@ matches ValueV::Symbol(s) && (s == lit_dot())) && e == (Error {
                    error_type: ErrorType::InvalidTokenValue,
                    line,
                    position: start,
                }),
            },
    {
        let ok = match &val {
            LiteralValue::Symbol(s) => {
                ({
                    let lit: [u8; 1] = [46];
                    proof {
                        assert(lit@ =~= lit_dot());
                    }
                    bytes_match(s, lit.as_slice())
                })
            },
            _ => false,
        };
        checked_token(TokenType::Dot, ok, val, raw, line, start)
    }

    /// A bang symbol token; the payload must be the fitting `Symbol` text.
    pub fn new_bang(val: LiteralValue, raw: &[u8], line: usize, start: usize) -> (r: Result<
        Token,
        Error,
    >)
        ensures
            match r {
                Ok(t) => (val@ matches ValueV::Symbol(s) && (s == lit_bang())) && t@ == (TokenV {
                    token_type: TokenType::Bang,
                    val: val@,
                    raw: raw@,
                    line: line as nat,
                    start: start as nat,
                }),
                Err(e) => !(val@ matches ValueV::Symbol(s) && (s == lit_bang())) && e == (Error {
                    error_type: ErrorType::InvalidTokenValue,
                    line,
                    position: start,
                }),
            },
    {
        let ok = match &val {
            LiteralValue::Symbol(s) => {
                ({
                    let lit: [u8; 1] = [33];
                    proof {
                        assert(lit@ =~= lit_bang());
                    }
                    bytes_match(s, lit.as_slice())
                })
            },
            _ => false,
        };
        checked_token(TokenType::Bang, ok, val, raw, line, start)
    }

    /// A question symbol token; the payload must be the fitting `Symbol` text.
    pub fn new_question(val: LiteralValue, raw: &[u8], line: usize, start: usize) -> (r: Result<
        Token,
        Error,
    >)
        ensures
            match r {
                Ok(t) => (val@ matches ValueV::Symbol(s) && (s == lit_question())) && t@ == (TokenV {
                    token_type: TokenType::Question,
                    val: val@,
                    raw: raw@,
                    line: line as nat,
                    start: start as nat,
                }),
                Err(e) => !(val@ matches ValueV::Symbol(s) && (s == lit_question())) && e == (Error {
                    error_type: ErrorType::InvalidTokenValue,
                    line,
                    position: start,
                }),
            },
    {
        let ok = match &val {
            LiteralValue::Symbol(s) => {
                ({
                    let lit: [u8; 1] = [63];
                    proof {
                        assert(lit@ =~= lit_question());
                    }
                    bytes_match(s, lit.as_slice())
                })
            },
            _ => false,
        };
        checked_token(TokenType::Question, ok, val, raw, line, start)
    }

    /// An interrobang symbol token; the payload must be the fitting `Symbol` text.
    pub fn new_interrobang(val: LiteralValue, raw: &[u8], line: usize, start: usize) -> (r: Result<
        Token,
        Error,
    >)
        ensures
            match r {
                Ok(t) => (val@ matches ValueV::Symbol(s) && (s == lit_interrobang() || s == lit_qbang() || s == lit_bangq())) && t@ == (TokenV {
                    token_type: TokenType::Interrobang,
                    val: val@,
                    raw: raw@,
                    line: line as nat,
                    start: start as nat,
                }),
                Err(e) => !(val@ matches ValueV::Symbol(s) && (s == lit_interrobang() || s == lit_qbang() || s == lit_bangq())) && e == (Error {
                    error_type: ErrorType::InvalidTokenValue,
                    line,
                    position: start,
                }),
            },
    {
        let ok = match &val {
            LiteralValue::Symbol(s) => {
                ({
                    let lit: [u8; 3] = [226, 128, 189];
                    proof {
                        assert(lit@ =~= lit_interrobang());
                    }
                    bytes_match(s, lit.as_slice())
                }) || ({
                    let lit: [u8; 2] = [63, 33];
                    proof {
                        assert(lit@ =~= lit_qbang());
                    }
                    bytes_match(s, lit.as_slice())
                }) || ({
                    let lit: [u8; 2] = [33, 63];
                    proof {
                        assert(lit@ =~= lit_bangq());
                    }
                    bytes_match(s, lit.as_slice())
                })
            },
            _ => false,
        };
        checked_token(TokenType::Interrobang, ok, val, raw, line, start)
    }

    /// A semicolon symbol token; the payload must be the fitting `Symbol` text.
    pub fn new_semicolon(val: LiteralValue, raw: &[u8], line: usize, start: usize) -> (r: Result<
        Token,
        Error,
    >)
        ensures
            match r {
                Ok(t) => (val@ matches ValueV::Symbol(s) && (s == lit_semicolon())) && t@ == (TokenV {
                    token_type: TokenType::Semicolon,
                    val: val@,
                    raw: raw@,
                    line: line as nat,
                    start: start as nat,
                }),
                Err(e) => !(val@ matches ValueV::Symbol(s) && (s == lit_semicolon())) && e == (Error {
                    error_type: ErrorType::InvalidTokenValue,
                    line,
                    position: start,
                }),
            },
    {
        let ok = match &val {
            LiteralValue::Symbol(s) => {
                ({
                    let lit: [u8; 1] = [59];
                    proof {
                        assert(lit@ =~= lit_semicolon());
                    }
                    bytes_match(s, lit.as_slice())
                })
            },
            _ => false,
        };
        checked_token(TokenType::Semicolon, ok, val, raw, line, start)
    }

    /// A colon symbol token; the payload must be the fitting `Symbol` text.
    pub fn new_colon(val: LiteralValue, raw: &[u8], line: usize, start: usize) -> (r: Result<
        Token,
        Error,
    >)
        ensures
            match r {
                Ok(t) => (val@ matches ValueV::Symbol(s) && (s == lit_colon())) && t@ == (TokenV {
                    token_type: TokenType::Colon,
                    val: val@,
                    raw: raw@,
                    line: line as nat,
                    start: start as nat,
                }),
                Err(e) => !(val@ matches ValueV::Symbol(s) && (s == lit_colon())) && e == (Error {
                    error_type: ErrorType::InvalidTokenValue,
                    line,
                    position: start,
                }),
            },
    {
        let ok = match &val {
            LiteralValue::Symbol(s) => {
                ({
                    let lit: [u8; 1] = [58];
                    proof {
                        assert(lit@ =~= lit_colon());
                    }
                    bytes_match(s, lit.as_slice())
                })
            },
            _ => false,
        };
        checked_token(TokenType::Colon, ok, val, raw, line, start)
    }

    /// A left-paren symbol token; the payload must be the fitting `Symbol` text.
    pub fn new_left_paren(val: LiteralValue, raw: &[u8], line: usize, start: usize) -> (r: Result<
        Token,
        Error,
    >)
        ensures
            match r {
                Ok(t) => (val@ matches ValueV::Symbol(s) && (s == lit_lparen())) && t@ == (TokenV {
                    token_type: TokenType::LeftParen,
                    val: val@,
                    raw: raw@,
                    line: line as nat,
                    start: start as nat,
                }),
                Err(e) => !(val@ matches ValueV::Symbol(s) && (s == lit_lparen())) && e == (Error {
                    error_type: ErrorType::InvalidTokenValue,
                    line,
                    position: start,
                }),
            },
    {
        let ok = match &val {
            LiteralValue::Symbol(s) => {
                ({
                    let lit: [u8; 1] = [40];
                    proof {
                        assert(lit@ =~= lit_lparen());
                    }
                    bytes_match(s, lit.as_slice())
                })
            },
            _ => false,
        };
        checked_token(TokenType::LeftParen, ok, val, raw, line, start)
    }

    /// A right-paren symbol token; the payload must be the fitting `Symbol` text.
    pub fn new_right_paren(val: LiteralValue, raw: &[u8], line: usize, start: usize) -> (r: Result<
        Token,
        Error,
    >)
        ensures
            match r {
                Ok(t) => (val@ matches ValueV::Symbol(s) && (s == lit_rparen())) && t@ == (TokenV {
                    token_type: TokenType::RightParen,
                    val: val@,
                    raw: raw@,
                    line: line as nat,
                    start: start as nat,
                }),
                Err(e) => !(val@ matches ValueV::Symbol(s) && (s == lit_rparen())) && e == (Error {
                    error_type: ErrorType::InvalidTokenValue,
                    line,
                    position: start,
                }),
            },
    {
        let ok = match &val {
            LiteralValue::Symbol(s) => {
                ({
                    let lit: [u8; 1] = [41];
                    proof {
                        assert(lit@ =~= lit_rparen());
                    }
                    bytes_match(s, lit.as_slice())
                })
            },
            _ => false,
        };
        checked_token(TokenType::RightParen, ok, val, raw, line, start)
    }

    /// A plus symbol token; the payload must be the fitting `Symbol` text.
    pub fn new_plus(val: LiteralValue, raw: &[u8], line: usize, start: usize) -> (r: Result<
        Token,
        Error,
    >)
        ensures
            match r {
                Ok(t) => (val@ matches ValueV::Symbol(s) && (s == lit_plus())) && t@ == (TokenV {
                    token_type: TokenType::Plus,
                    val: val@,
                    raw: raw@,
                    line: line as nat,
                    start: start as nat,
                }),
                Err(e) => !(val@ matches ValueV::Symbol(s) && (s == lit_plus())) && e == (Error {
                    error_type: ErrorType::InvalidTokenValue,
                    line,
                    position: start,
                }),
            },
    {
        let ok = match &val {
            LiteralValue::Symbol(s) => {
                ({
                    let lit: [u8; 1] = [43];
                    proof {
                        assert(lit@ =~= lit_plus());
                    }
                    bytes_match(s, lit.as_slice())
                })
            },
            _ => false,
        };
        checked_token(TokenType::Plus, ok, val, raw, line, start)
    }

    /// A minus symbol token; the payload must be the fitting `Symbol` text.
    pub fn new_minus(val: LiteralValue, raw: &[u8], line: usize, start: usize) -> (r: Result<
        Token,
        Error,
    >)
        ensures
            match r {
                Ok(t) => (val@ matches ValueV::Symbol(s) && (s == lit_minus())) && t@ == (TokenV {
                    token_type: TokenType::Minus,
                    val: val@,
                    raw: raw@,
                    line: line as nat,
                    start: start as nat,
                }),
                Err(e) => !(val@ matches ValueV::Symbol(s) && (s == lit_minus())) && e == (Error {
                    error_type: ErrorType::InvalidTokenValue,
                    line,
                    position: start,
                }),
            },
    {
        let ok = match &val {
            LiteralValue::Symbol(s) => {
                ({
                    let lit: [u8; 1] = [45];
                    proof {
                        assert(lit@ =~= lit_minus());
                    }
                    bytes_match(s, lit.as_slice())
                })
            },
            _ => false,
        };
        checked_token(TokenType::Minus, ok, val, raw, line, start)
    }

    /// A star symbol token; the payload must be the fitting `Symbol` text.
    pub fn new_star(val: LiteralValue, raw: &[u8], line: usize, start: usize) -> (r: Result<
        Token,
        Error,
    >)
        ensures
            match r {
                Ok(t) => (val@ matches ValueV::Symbol(s) && (s == lit_star())) && t@ == (TokenV {
                    token_type: TokenType::Star,
                    val: val@,
                    raw: raw@,
                    line: line as nat,
                    start: start as nat,
                }),
                Err(e) => !(val@ matches ValueV::Symbol(s) && (s == lit_star())) && e == (Error {
                    error_type: ErrorType::InvalidTokenValue,
                    line,
                    position: start,
                }),
            },
    {
        let ok = match &val {
            LiteralValue::Symbol(s) => {
                ({
                    let lit: [u8; 1] = [42];
                    proof {
                        assert(lit@ =~= lit_star());
                    }
                    bytes_match(s, lit.as_slice())
                })
            },
            _ => false,
        };
        checked_token(TokenType::Star, ok, val, raw, line, start)
    }

    /// A slash symbol token; the payload must be the fitting `Symbol` text.
    pub fn new_slash(val: LiteralValue, raw: &[u8], line: usize, start: usize) -> (r: Result<
        Token,
        Error,
    >)
        ensures
            match r {
                Ok(t) => (val@ matches ValueV::Symbol(s) && (s == lit_slash())) && t@ == (TokenV {
                    token_type: TokenType::Slash,
                    val: val@,
                    raw: raw@,
                    line: line as nat,
                    start: start as nat,
                }),
                Err(e) => !(val@ matches ValueV::Symbol(s) && (s == lit_slash())) && e == (Error {
                    error_type: ErrorType::InvalidTokenValue,
                    line,
                    position: start,
                }),
            },
    {
        let ok = match &val {
            LiteralValue::Symbol(s) => {
                ({
                    let lit: [u8; 1] = [47];
                    proof {
                        assert(lit@ =~= lit_slash());
                    }
                    bytes_match(s, lit.as_slice())
                })
            },
            _ => false,
        };
        checked_token(TokenType::Slash, ok, val, raw, line, start)
    }

    /// A percent symbol token; the payload must be the fitting `Symbol` text.
    pub fn new_mod(val: LiteralValue, raw: &[u8], line: usize, start: usize) -> (r: Result<
        Token,
        Error,
    >)
        ensures
            match r {
                Ok(t) => (val@ matches ValueV::Symbol(s) && (s == lit_percent())) && t@ == (TokenV {
                    token_type: TokenType::Mod,
                    val: val@,
                    raw: raw@,
                    line: line as nat,
                    start: start as nat,
                }),
                Err(e) => !(val@ matches ValueV::Symbol(s) && (s == lit_percent())) && e == (Error {
                    error_type: ErrorType::InvalidTokenValue,
                    line,
                    position: start,
                }),
            },
    {
        let ok = match &val {
            LiteralValue::Symbol(s) => {
                ({
                    let lit: [u8; 1] = [37];
                    proof {
                        assert(lit@ =~= lit_percent());
                    }
                    bytes_match(s, lit.as_slice())
                })
            },
            _ => false,
        };
        checked_token(TokenType::Mod, ok, val, raw, line, start)
    }

    /// An ellipsis symbol token; the payload must be the fitting `Symbol` text.
    pub fn new_ellipsis(val: LiteralValue, raw: &[u8], line: usize, start: usize) -> (r: Result<
        Token,
        Error,
    >)
        ensures
            match r {
                Ok(t) => (val@ matches ValueV::Symbol(s) && (s == lit_ellipsis())) && t@ == (TokenV {
                    token_type: TokenType::Ellipsis,
                    val: val@,
                    raw: raw@,
                    line: line as nat,
                    start: start as nat,
                }),
                Err(e) => !(val@ matches ValueV::Symbol(s) && (s == lit_ellipsis())) && e == (Error {
                    error_type: ErrorType::InvalidTokenValue,
                    line,
                    position: start,
                }),
            },
    {
        let ok = match &val {
            LiteralValue::Symbol(s) => {
                ({
                    let lit: [u8; 3] = [46, 46, 46];
                    proof {
                        assert(lit@ =~= lit_ellipsis());
                    }
                    bytes_match(s, lit.as_slice())
                })
            },
            _ => false,
        };
        checked_token(TokenType::Ellipsis, ok, val, raw, line, start)
    }

    /// An If keyword token; the payload must be the fitting `Keyword` text.
    pub fn new_if(val: LiteralValue, raw: &[u8], line: usize, start: usize) -> (r: Result<
        Token,
        Error,
    >)
        ensures
            match r {
                Ok(t) => (val@ matches ValueV::Keyword(s) && (s == lit_if_lc() || s == lit_if_cap())) && t@ == (TokenV {
                    token_type: TokenType::If,
                    val: val@,
                    raw: raw@,
                    line: line as nat,
                    start: start as nat,
                }),
                Err(e) => !(val@ matches ValueV::Keyword(s) && (s == lit_if_lc() || s == lit_if_cap())) && e == (Error {
                    error_type: ErrorType::InvalidTokenValue,
                    line,
                    position: start,
                }),
            },
    {
        let ok = match &val {
            LiteralValue::Keyword(s) => {
                ({
                    let lit: [u8; 2] = [105, 102];
                    proof {
                        assert(lit@ =~= lit_if_lc());
                    }
                    bytes_match(s, lit.as_slice())
                }) || ({
                    let lit: [u8; 2] = [73, 102];
                    proof {
                        assert(lit@ =~= lit_if_cap());
                    }
                    bytes_match(s, lit.as_slice())
                })
            },
            _ => false,
        };
        checked_token(TokenType::If, ok, val, raw, line, start)
    }

    /// An EqTo keyword token; the payload must be the fitting `Keyword` text.
    pub fn new_eq_to(val: LiteralValue, raw: &[u8], line: usize, start: usize) -> (r: Result<
        Token,
        Error,
    >)
        ensures
            match r {
                Ok(t) => (val@ matches ValueV::Keyword(s) && (s == lit_eq_to())) && t@ == (TokenV {
                    token_type: TokenType::EqTo,
                    val: val@,
                    raw: raw@,
                    line: line as nat,
                    start: start as nat,
                }),
                Err(e) => !(val@ matches ValueV::Keyword(s) && (s == lit_eq_to())) && e == (Error {
                    error_type: ErrorType::InvalidTokenValue,
                    line,
                    position: start,
                }),
            },
    {
        let ok = match &val {
            LiteralValue::Keyword(s) => {
                ({
                    let lit: [u8; 11] = [105, 115, 32, 101, 113, 117, 97, 108, 32, 116, 111];
                    proof {
                        assert(lit@ =~= lit_eq_to());
                    }
                    bytes_match(s, lit.as_slice())
                })
            },
            _ => false,
        };
        checked_token(TokenType::EqTo, ok, val, raw, line, start)
    }

    /// A NeqTo keyword token; the payload must be the fitting `Keyword` text.
    pub fn new_neq_to(val: LiteralValue, raw: &[u8], line: usize, start: usize) -> (r: Result<
        Token,
        Error,
    >)
        ensures
            match r {
                Ok(t) => (val@ matches ValueV::Keyword(s) && (s == lit_neq_to() || s == lit_neq_to_apos())) && t@ == (TokenV {
                    token_type: TokenType::NeqTo,
                    val: val@,
                    raw: raw@,
                    line: line as nat,
                    start: start as nat,
                }),
                Err(e) => !(val@ matches ValueV::Keyword(s) && (s == lit_neq_to() || s == lit_neq_to_apos())) && e == (Error {
                    error_type: ErrorType::InvalidTokenValue,
                    line,
                    position: start,
                }),
            },
    {
        let ok = match &val {
            LiteralValue::Keyword(s) => {
                ({
                    let lit: [u8; 15] = [105, 115, 32, 110, 111, 116, 32, 101, 113, 117, 97, 108, 32, 116, 111];
                    proof {
                        assert(lit@ =~= lit_neq_to());
                    }
                    bytes_match(s, lit.as_slice())
                }) || ({
                    let lit: [u8; 14] = [105, 115, 110, 39, 116, 32, 101, 113, 117, 97, 108, 32, 116, 111];
                    proof {
                        assert(lit@ =~= lit_neq_to_apos());
                    }
                    bytes_match(s, lit.as_slice())
                })
            },
            _ => false,
        };
        checked_token(TokenType::NeqTo, ok, val, raw, line, start)
    }

    /// An Or keyword token; the payload must be the fitting `Keyword` text.
    pub fn new_or(val: LiteralValue, raw: &[u8], line: usize, start: usize) -> (r: Result<
        Token,
        Error,
    >)
        ensures
            match r {
                Ok(t) => (val@ matches ValueV::Keyword(s) && (s == lit_or_kw())) && t@ == (TokenV {
                    token_type: TokenType::Or,
                    val: val@,
                    raw: raw@,
                    line: line as nat,
                    start: start as nat,
                }),
                Err(e) => !(val@ matches ValueV::Keyword(s) && (s == lit_or_kw())) && e == (Error {
                    error_type: ErrorType::InvalidTokenValue,
                    line,
                    position: start,
                }),
            },
    {
        let ok = match &val {
            LiteralValue::Keyword(s) => {
                ({
                    let lit: [u8; 2] = [111, 114];
                    proof {
                        assert(lit@ =~= lit_or_kw());
                    }
                    bytes_match(s, lit.as_slice())
                })
            },
            _ => false,
        };
        checked_token(TokenType::Or, ok, val, raw, line, start)
    }

    /// A Not keyword token; the payload must be the fitting `Keyword` text.
    pub fn new_not(val: LiteralValue, raw: &[u8], line: usize, start: usize) -> (r: Result<
        Token,
        Error,
    >)
        ensures
            match r {
                Ok(t) => (val@ matches ValueV::Keyword(s) && (s == lit_not_kw() || s == lit_not_apos())) && t@ == (TokenV {
                    token_type: TokenType::Not,
                    val: val@,
                    raw: raw@,
                    line: line as nat,
                    start: start as nat,
                }),
                Err(e) => !(val@ matches ValueV::Keyword(s) && (s == lit_not_kw() || s == lit_not_apos())) && e == (Error {
                    error_type: ErrorType::InvalidTokenValue,
                    line,
                    position: start,
                }),
            },
    {
        let ok = match &val {
            LiteralValue::Keyword(s) => {
                ({
                    let lit: [u8; 6] = [105, 115, 32, 110, 111, 116];
                    proof {
                        assert(lit@ =~= lit_not_kw());
                    }
                    bytes_match(s, lit.as_slice())
                }) || ({
                    let lit: [u8; 5] = [105, 115, 110, 39, 116];
                    proof {
                        assert(lit@ =~= lit_not_apos());
                    }
                    bytes_match(s, lit.as_slice())
                })
            },
            _ => false,
        };
        checked_token(TokenType::Not, ok, val, raw, line, start)
    }

    /// An And keyword token; the payload must be the fitting `Keyword` text.
    pub fn new_and(val: LiteralValue, raw: &[u8], line: usize, start: usize) -> (r: Result<
        Token,
        Error,
    >)
        ensures
            match r {
                Ok(t) => (val@ matches ValueV::Keyword(s) && (s == lit_and_kw())) && t@ == (TokenV {
                    token_type: TokenType::And,
                    val: val@,
                    raw: raw@,
                    line: line as nat,
                    start: start as nat,
                }),
                Err(e) => !(val@ matches ValueV::Keyword(s) && (s == lit_and_kw())) && e == (Error {
                    error_type: ErrorType::InvalidTokenValue,
                    line,
                    position: start,
                }),
            },
    {
        let ok = match &val {
            LiteralValue::Keyword(s) => {
                ({
                    let lit: [u8; 3] = [97, 110, 100];
                    proof {
                        assert(lit@ =~= lit_and_kw());
                    }
                    bytes_match(s, lit.as_slice())
                })
            },
            _ => false,
        };
        checked_token(TokenType::And, ok, val, raw, line, start)
    }

    /// A LessEq keyword token; the payload must be the fitting `Keyword` text.
    pub fn new_less_eq(val: LiteralValue, raw: &[u8], line: usize, start: usize) -> (r: Result<
        Token,
        Error,
    >)
        ensures
            match r {
                Ok(t) => (val@ matches ValueV::Keyword(s) && (s == lit_less_eq())) && t@ == (TokenV {
                    token_type: TokenType::LessEq,
                    val: val@,
                    raw: raw@,
                    line: line as nat,
                    start: start as nat,
                }),
                Err(e) => !(val@ matches ValueV::Keyword(s) && (s == lit_less_eq())) && e == (Error {
                    error_type: ErrorType::InvalidTokenValue,
                    line,
                    position: start,
                }),
            },
    {
        let ok = match &val {
            LiteralValue::Keyword(s) => {
                ({
                    let lit: [u8; 24] = [105, 115, 32, 108, 101, 115, 115, 32, 116, 104, 97, 110, 32, 111, 114, 32, 101, 113, 117, 97, 108, 32, 116, 111];
                    proof {
                        assert(lit@ =~= lit_less_eq());
                    }
                    bytes_match(s, lit.as_slice())
                })
            },
            _ => false,
        };
        checked_token(TokenType::LessEq, ok, val, raw, line, start)
    }

    /// A Less keyword token; the payload must be the fitting `Keyword` text.
    pub fn new_less(val: LiteralValue, raw: &[u8], line: usize, start: usize) -> (r: Result<
        Token,
        Error,
    >)
        ensures
            match r {
                Ok(t) => (val@ matches ValueV::Keyword(s) && (s == lit_less())) && t@ == (TokenV {
                    token_type: TokenType::Less,
                    val: val@,
                    raw: raw@,
                    line: line as nat,
                    start: start as nat,
                }),
                Err(e) => !(val@ matches ValueV::Keyword(s) && (s == lit_less())) && e == (Error {
                    error_type: ErrorType::InvalidTokenValue,
                    line,
                    position: start,
                }),
            },
    {
        let ok = match &val {
            LiteralValue::Keyword(s) => {
                ({
                    let lit: [u8; 12] = [105, 115, 32, 108, 101, 115, 115, 32, 116, 104, 97, 110];
                    proof {
                        assert(lit@ =~= lit_less());
                    }
                    bytes_match(s, lit.as_slice())
                })
            },
            _ => false,
        };
        checked_token(TokenType::Less, ok, val, raw, line, start)
    }

    /// A GreaterEq keyword token; the payload must be the fitting `Keyword` text.
    pub fn new_greater_eq(val: LiteralValue, raw: &[u8], line: usize, start: usize) -> (r: Result<
        Token,
        Error,
    >)
        ensures
            match r {
                Ok(t) => (val@ matches ValueV::Keyword(s) && (s == lit_greater_eq())) && t@ == (TokenV {
                    token_type: TokenType::GreaterEq,
                    val: val@,
                    raw: raw@,
                    line: line as nat,
                    start: start as nat,
                }),
                Err(e) => !(val@ matches ValueV::Keyword(s) && (s == lit_greater_eq())) && e == (Error {
                    error_type: ErrorType::InvalidTokenValue,
                    line,
                    position: start,
                }),
            },
    {
        let ok = match &val {
            LiteralValue::Keyword(s) => {
                ({
                    let lit: [u8; 27] = [105, 115, 32, 103, 114, 101, 97, 116, 101, 114, 32, 116, 104, 97, 110, 32, 111, 114, 32, 101, 113, 117, 97, 108, 32, 116, 111];
                    proof {
                        assert(lit@ =~= lit_greater_eq());
                    }
                    bytes_match(s, lit.as_slice())
                })
            },
            _ => false,
        };
        checked_token(TokenType::GreaterEq, ok, val, raw, line, start)
    }

    /// A Greater keyword token; the payload must be the fitting `Keyword` text.
    pub fn new_greater(val: LiteralValue, raw: &[u8], line: usize, start: usize) -> (r: Result<
        Token,
        Error,
    >)
        ensures
            match r {
                Ok(t) => (val@ matches ValueV::Keyword(s) && (s == lit_greater())) && t@ == (TokenV {
                    token_type: TokenType::Greater,
                    val: val@,
                    raw: raw@,
                    line: line as nat,
                    start: start as nat,
                }),
                Err(e) => !(val@ matches ValueV::Keyword(s) && (s == lit_greater())) && e == (Error {
                    error_type: ErrorType::InvalidTokenValue,
                    line,
                    position: start,
                }),
            },
    {
        let ok = match &val {
            LiteralValue::Keyword(s) => {
                ({
                    let lit: [u8; 15] = [105, 115, 32, 103, 114, 101, 97, 116, 101, 114, 32, 116, 104, 97, 110];
                    proof {
                        assert(lit@ =~= lit_greater());
                    }
                    bytes_match(s, lit.as_slice())
                })
            },
            _ => false,
        };
        checked_token(TokenType::Greater, ok, val, raw, line, start)
    }

    /// A Therefore keyword token; the payload must be the fitting `Keyword` text.
    pub fn new_therefore(val: LiteralValue, raw: &[u8], line: usize, start: usize) -> (r: Result<
        Token,
        Error,
    >)
        ensures
            match r {
                Ok(t) => (val@ matches ValueV::Keyword(s) && (s == lit_therefore_lc() || s == lit_therefore_cap())) && t@ == (TokenV {
                    token_type: TokenType::Therefore,
                    val: val@,
                    raw: raw@,
                    line: line as nat,
                    start: start as nat,
                }),
                Err(e) => !(val@ matches ValueV::Keyword(s) && (s == lit_therefore_lc() || s == lit_therefore_cap())) && e == (Error {
                    error_type: ErrorType::InvalidTokenValue,
                    line,
                    position: start,
                }),
            },
    {
        let ok = match &val {
            LiteralValue::Keyword(s) => {
                ({
                    let lit: [u8; 11] = [59, 32, 116, 104, 101, 114, 101, 102, 111, 114, 101];
                    proof {
                        assert(lit@ =~= lit_therefore_lc());
                    }
                    bytes_match(s, lit.as_slice())
                }) || ({
                    let lit: [u8; 11] = [59, 32, 84, 104, 101, 114, 101, 102, 111, 114, 101];
                    proof {
                        assert(lit@ =~= lit_therefore_cap());
                    }
                    bytes_match(s, lit.as_slice())
                })
            },
            _ => false,
        };
        checked_token(TokenType::Therefore, ok, val, raw, line, start)
    }

    /// A False keyword token; the payload must be the fitting `Keyword` text.
    pub fn new_false(val: LiteralValue, raw: &[u8], line: usize, start: usize) -> (r: Result<
        Token,
        Error,
    >)
        ensures
            match r {
                Ok(t) => (val@ matches ValueV::Keyword(s) && (s == lit_false_kw())) && t@ == (TokenV {
                    token_type: TokenType::False,
                    val: val@,
                    raw: raw@,
                    line: line as nat,
                    start: start as nat,
                }),
                Err(e) => !(val@ matches ValueV::Keyword(s) && (s == lit_false_kw())) && e == (Error {
                    error_type: ErrorType::InvalidTokenValue,
                    line,
                    position: start,
                }),
            },
    {
        let ok = match &val {
            LiteralValue::Keyword(s) => {
                ({
                    let lit: [u8; 5] = [102, 97, 108, 115, 101];
                    proof {
                        assert(lit@ =~= lit_false_kw());
                    }
                    bytes_match(s, lit.as_slice())
                })
            },
            _ => false,
        };
        checked_token(TokenType::False, ok, val, raw, line, start)
    }

    /// A True keyword token; the payload must be the fitting `Keyword` text.
    pub fn new_true(val: LiteralValue, raw: &[u8], line: usize, start: usize) -> (r: Result<
        Token,
        Error,
    >)
        ensures
            match r {
                Ok(t) => (val@ matches ValueV::Keyword(s) && (s == lit_true_kw())) && t@ == (TokenV {
                    token_type: TokenType::True,
                    val: val@,
                    raw: raw@,
                    line: line as nat,
                    start: start as nat,
                }),
                Err(e) => !(val@ matches ValueV::Keyword(s) && (s == lit_true_kw())) && e == (Error {
                    error_type: ErrorType::InvalidTokenValue,
                    line,
                    position: start,
                }),
            },
    {
        let ok = match &val {
            LiteralValue::Keyword(s) => {
                ({
                    let lit: [u8; 4] = [116, 114, 117, 101];
                    proof {
                        assert(lit@ =~= lit_true_kw());
                    }
                    bytes_match(s, lit.as_slice())
                })
            },
            _ => false,
        };
        checked_token(TokenType::True, ok, val, raw, line, start)
    }

    /// A NoneKw keyword token; the payload must be the fitting `Keyword` text.
    pub fn new_none(val: LiteralValue, raw: &[u8], line: usize, start: usize) -> (r: Result<
        Token,
        Error,
    >)
        ensures
            match r {
                Ok(t) => (val@ matches ValueV::Keyword(s) && (s == lit_none_kw())) && t@ == (TokenV {
                    token_type: TokenType::NoneKw,
                    val: val@,
                    raw: raw@,
                    line: line as nat,
                    start: start as nat,
                }),
                Err(e) => !(val@ matches ValueV::Keyword(s) && (s == lit_none_kw())) && e == (Error {
                    error_type: ErrorType::InvalidTokenValue,
                    line,
                    position: start,
                }),
            },
    {
        let ok = match &val {
            LiteralValue::Keyword(s) => {
                ({
                    let lit: [u8; 4] = [110, 111, 110, 101];
                    proof {
                        assert(lit@ =~= lit_none_kw());
                    }
                    bytes_match(s, lit.as_slice())
                })
            },
            _ => false,
        };
        checked_token(TokenType::NoneKw, ok, val, raw, line, start)
    }

    /// A You keyword token; the payload must be the fitting `Keyword` text.
    pub fn new_you(val: LiteralValue, raw: &[u8], line: usize, start: usize) -> (r: Result<
        Token,
        Error,
    >)
        ensures
            match r {
                Ok(t) => (val@ matches ValueV::Keyword(s) && (s == lit_you_kw())) && t@ == (TokenV {
                    token_type: TokenType::You,
                    val: val@,
                    raw: raw@,
                    line: line as nat,
                    start: start as nat,
                }),
                Err(e) => !(val@ matches ValueV::Keyword(s) && (s == lit_you_kw())) && e == (Error {
                    error_type: ErrorType::InvalidTokenValue,
                    line,
                    position: start,
                }),
            },
    {
        let ok = match &val {
            LiteralValue::Keyword(s) => {
                ({
                    let lit: [u8; 3] = [89, 111, 117];
                    proof {
                        assert(lit@ =~= lit_you_kw());
                    }
                    bytes_match(s, lit.as_slice())
                })
            },
            _ => false,
        };
        checked_token(TokenType::You, ok, val, raw, line, start)
    }

    /// An Assignment keyword token; the payload must be the fitting `Keyword` text.
    pub fn new_assignment(val: LiteralValue, raw: &[u8], line: usize, start: usize) -> (r: Result<
        Token,
        Error,
    >)
        ensures
            match r {
                Ok(t) => (val@ matches ValueV::Keyword(s) && (s == lit_assign_it() || s == lit_assign_he() || s == lit_assign_she() || s == lit_assign_they())) && t@ == (TokenV {
                    token_type: TokenType::Assignment,
                    val: val@,
                    raw: raw@,
                    line: line as nat,
                    start: start as nat,
                }),
                Err(e) => !(val@ matches ValueV::Keyword(s) && (s == lit_assign_it() || s == lit_assign_he() || s == lit_assign_she() || s == lit_assign_they())) && e == (Error {
                    error_type: ErrorType::InvalidTokenValue,
                    line,
                    position: start,
                }),
            },
    {
        let ok = match &val {
            LiteralValue::Keyword(s) => {
                ({
                    let lit: [u8; 6] = [105, 116, 32, 105, 115, 32];
                    proof {
                        assert(lit@ =~= lit_assign_it());
                    }
                    bytes_match(s, lit.as_slice())
                }) || ({
                    let lit: [u8; 6] = [104, 101, 32, 105, 115, 32];
                    proof {
                        assert(lit@ =~= lit_assign_he());
                    }
                    bytes_match(s, lit.as_slice())
                }) || ({
                    let lit: [u8; 7] = [115, 104, 101, 32, 105, 115, 32];
                    proof {
                        assert(lit@ =~= lit_assign_she());
                    }
                    bytes_match(s, lit.as_slice())
                }) || ({
                    let lit: [u8; 9] = [32, 116, 104, 101, 121, 32, 97, 114, 101];
                    proof {
                        assert(lit@ =~= lit_assign_they());
                    }
                    bytes_match(s, lit.as_slice())
                })
            },
            _ => false,
        };
        checked_token(TokenType::Assignment, ok, val, raw, line, start)
    }

    /// A Declaration keyword token; the payload must be the fitting `Keyword` text.
    pub fn new_declaration(val: LiteralValue, raw: &[u8], line: usize, start: usize) -> (r: Result<
        Token,
        Error,
    >)
        ensures
            match r {
                Ok(t) => (val@ matches ValueV::Keyword(s) && (s == lit_declaration_lc() || s == lit_declaration_cap())) && t@ == (TokenV {
                    token_type: TokenType::Declaration,
                    val: val@,
                    raw: raw@,
                    line: line as nat,
                    start: start as nat,
                }),
                Err(e) => !(val@ matches ValueV::Keyword(s) && (s == lit_declaration_lc() || s == lit_declaration_cap())) && e == (Error {
                    error_type: ErrorType::InvalidTokenValue,
                    line,
                    position: start,
                }),
            },
    {
        let ok = match &val {
            LiteralValue::Keyword(s) => {
                ({
                    let lit: [u8; 10] = [116, 104, 101, 114, 101, 32, 105, 115, 32, 97];
                    proof {
                        assert(lit@ =~= lit_declaration_lc());
                    }
                    bytes_match(s, lit.as_slice())
                }) || ({
                    let lit: [u8; 10] = [84, 104, 101, 114, 101, 32, 105, 115, 32, 97];
                    proof {
                        assert(lit@ =~= lit_declaration_cap());
                    }
                    bytes_match(s, lit.as_slice())
                })
            },
            _ => false,
        };
        checked_token(TokenType::Declaration, ok, val, raw, line, start)
    }

    /// An IdKeyword keyword token; the payload must be the fitting `Keyword` text.
    pub fn new_id_keyword(val: LiteralValue, raw: &[u8], line: usize, start: usize) -> (r: Result<
        Token,
        Error,
    >)
        ensures
            match r {
                Ok(t) => (val@ matches ValueV::Keyword(s) && (s == lit_called() || s == lit_named() || s == lit_labelled())) && t@ == (TokenV {
                    token_type: TokenType::IdKeyword,
                    val: val@,
                    raw: raw@,
                    line: line as nat,
                    start: start as nat,
                }),
                Err(e) => !(val@ matches ValueV::Keyword(s) && (s == lit_called() || s == lit_named() || s == lit_labelled())) && e == (Error {
                    error_type: ErrorType::InvalidTokenValue,
                    line,
                    position: start,
                }),
            },
    {
        let ok = match &val {
            LiteralValue::Keyword(s) => {
                ({
                    let lit: [u8; 6] = [99, 97, 108, 108, 101, 100];
                    proof {
                        assert(lit@ =~= lit_called());
                    }
                    bytes_match(s, lit.as_slice())
                }) || ({
                    let lit: [u8; 5] = [110, 97, 109, 101, 100];
                    proof {
                        assert(lit@ =~= lit_named());
                    }
                    bytes_match(s, lit.as_slice())
                }) || ({
                    let lit: [u8; 8] = [108, 97, 98, 101, 108, 108, 101, 100];
                    proof {
                        assert(lit@ =~= lit_labelled());
                    }
                    bytes_match(s, lit.as_slice())
                })
            },
            _ => false,
        };
        checked_token(TokenType::IdKeyword, ok, val, raw, line, start)
    }

    /// A NumericLiteral token; the payload must be a `Number` value.
    pub fn new_number(val: LiteralValue, raw: &[u8], line: usize, start: usize) -> (r: Result<
        Token,
        Error,
    >)
        ensures
            match r {
                Ok(t) => val@ is Number && t@ == (TokenV {
                    token_type: TokenType::NumericLiteral,
                    val: val@,
                    raw: raw@,
                    line: line as nat,
                    start: start as nat,
                }),
                Err(e) => !(val@ is Number) && e == (Error {
                    error_type: ErrorType::InvalidTokenValue,
                    line,
                    position: start,
                }),
            },
    {
        let ok = match &val {
            LiteralValue::Number(..) => true,
            _ => false,
        };
        checked_token(TokenType::NumericLiteral, ok, val, raw, line, start)
    }

    /// A StringLiteral token; the payload must be a `Text` value.
    pub fn new_string(val: LiteralValue, raw: &[u8], line: usize, start: usize) -> (r: Result<
        Token,
        Error,
    >)
        ensures
            match r {
                Ok(t) => val@ is Text && t@ == (TokenV {
                    token_type: TokenType::StringLiteral,
                    val: val@,
                    raw: raw@,
                    line: line as nat,
                    start: start as nat,
                }),
                Err(e) => !(val@ is Text) && e == (Error {
                    error_type: ErrorType::InvalidTokenValue,
                    line,
                    position: start,
                }),
            },
    {
        let ok = match &val {
            LiteralValue::Text(..) => true,
            _ => false,
        };
        checked_token(TokenType::StringLiteral, ok, val, raw, line, start)
    }

    /// An Identifier token; the payload must be an `Identifier` value.
    pub fn new_identifier(val: LiteralValue, raw: &[u8], line: usize, start: usize) -> (r: Result<
        Token,
        Error,
    >)
        ensures
            match r {
                Ok(t) => val@ is Identifier && t@ == (TokenV {
                    token_type: TokenType::Identifier,
                    val: val@,
                    raw: raw@,
                    line: line as nat,
                    start: start as nat,
                }),
                Err(e) => !(val@ is Identifier) && e == (Error {
                    error_type: ErrorType::InvalidTokenValue,
                    line,
                    position: start,
                }),
            },
    {
        let ok = match &val {
            LiteralValue::Identifier(..) => true,
            _ => false,
        };
        checked_token(TokenType::Identifier, ok, val, raw, line, start)
    }

    /// An EOF token; the payload must be the `EOF` marker.
    pub fn new_eof(val: LiteralValue, raw: &[u8], line: usize, start: usize) -> (r: Result<
        Token,
        Error,
    >)
        ensures
            match r {
                Ok(t) => val@ is EOF && t@ == (TokenV {
                    token_type: TokenType::EOF,
                    val: val@,
                    raw: raw@,
                    line: line as nat,
                    start: start as nat,
                }),
                Err(e) => !(val@ is EOF) && e == (Error {
                    error_type: ErrorType::InvalidTokenValue,
                    line,
                    position: start,
                }),
            },
    {
        let ok = match &val {
            LiteralValue::EOF => true,
            _ => false,
        };
        checked_token(TokenType::EOF, ok, val, raw, line, start)
    }
}

} // verus!
