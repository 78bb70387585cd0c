//! The lexer: turns a text buffer into tokens on demand, skipping
//! whitespace, counting lines, and reporting lexical failures positionally
//! instead of panicking.

use vstd::prelude::*;
use vstd::slice::slice_to_vec;

use crate::error_handler::Error;
use crate::error_handler::ErrorType;
use crate::lexer_rules::is_ws_byte;
use crate::lexer_rules::lemma_digit_run;
use crate::lexer_rules::lemma_find_byte;
use crate::lexer_rules::lemma_ws_run;
use crate::lexer_rules::match_rule;
use crate::lexer_rules::digit_run_end;
use crate::lexer_rules::number_len;
use crate::lexer_rules::rule_at;
use crate::lexer_rules::string_len;
use crate::lexer_rules::ws_run_end;
use crate::numeric::bits_of_decimal;
use crate::numeric::decimal_to_bits;
use crate::numeric::is_digit_byte;
use crate::numeric::is_number_shape;
use crate::token::Token;
use crate::token::TokenType;
use crate::token::TokenV;
use crate::value::LiteralValue;
use crate::value::ValueV;
use crate::value::clone_bytes;

verus! {

/// The payload a token of the given kind carries for the given matched
/// bytes: numeric literals carry the denoted value, string literals the
/// bytes between the quotes, and the other kinds their raw text under the
/// fitting variant.
pub open spec fn value_of(kind: TokenType, raw: Seq<u8>) -> ValueV {
    match kind {
        TokenType::NumericLiteral => ValueV::Number(bits_of_decimal(raw)),
        TokenType::StringLiteral => ValueV::Text(raw.subrange(1, raw.len() - 1)),
        TokenType::Identifier => ValueV::Identifier(raw),
        TokenType::Comma => ValueV::Symbol(raw),
        TokenType::Dot => ValueV::Symbol(raw),
        TokenType::Bang => ValueV::Symbol(raw),
        TokenType::Question => ValueV::Symbol(raw),
        TokenType::Interrobang => ValueV::Symbol(raw),
        TokenType::Semicolon => ValueV::Symbol(raw),
        TokenType::Colon => ValueV::Symbol(raw),
        TokenType::LeftParen => ValueV::Symbol(raw),
        TokenType::RightParen => ValueV::Symbol(raw),
        TokenType::Plus => ValueV::Symbol(raw),
        TokenType::Minus => ValueV::Symbol(raw),
        TokenType::Slash => ValueV::Symbol(raw),
        TokenType::Star => ValueV::Symbol(raw),
        TokenType::Mod => ValueV::Symbol(raw),
        TokenType::Ellipsis => ValueV::Symbol(raw),
        TokenType::EOF => ValueV::EOF,
        TokenType::Whitespace => ValueV::Absent,
        TokenType::Invalid => ValueV::Absent,
        _ => ValueV::Keyword(raw),
    }
}

/// The token matched at position `j` on line `line`, given the matched
/// rule's kind and length: its raw text is the matched bytes, its payload
/// follows the kind.
pub open spec fn token_of(text: Seq<u8>, j: int, line: int, kind: TokenType, len: int) -> TokenV {
    TokenV {
        token_type: kind,
        val: value_of(kind, text.subrange(j, j + len)),
        raw: text.subrange(j, j + len),
        line: line as nat,
        start: j as nat,
    }
}

/// How many newline bytes lie in `text` between `a` (inclusive) and `b`
/// (exclusive). Only spans of skipped whitespace are ever counted: a
/// newline inside a token's raw text (a quoted literal can hold one) does
/// not raise the line counter, since the counter is tied to the
/// whitespace rule alone.
pub open spec fn newlines_in(text: Seq<u8>, a: int, b: int) -> int
    decreases b - a,
{
    if a >= b {
        0
    } else {
        newlines_in(text, a, b - 1) + (
        if 0 <= b - 1 < text.len() && text[b - 1] == 10 {
            1int
        } else {
            0int
        })
    }
}

/// The position and line after skipping every whitespace match from `i`:
/// whitespace matches its own rule and is discarded, and each newline in it
/// raises the line counter.
pub open spec fn skip_ws(text: Seq<u8>, i: int, line: int) -> (int, int)
    decreases text.len() - i,
{
    match rule_at(text, i) {
        Some(m) => {
            if m.0 == TokenType::Whitespace && m.1 > 0 && i + m.1 <= text.len() {
                skip_ws(text, i + m.1, line + newlines_in(text, i, i + m.1))
            } else {
                (i, line)
            }
        },
        None => (i, line),
    }
}

/// One step of the lexer: the token or failure read at a position, with
/// the position and line that the lexer stands at afterwards.
pub struct LexStep {
    pub token: Result<TokenV, Error>,
    pub pos: int,
    pub line: int,
}

/// What reading one token from position `i` on line `line` yields: the
/// whitespace before it is discarded (raising the line counter once per
/// newline byte in it, and only there), then the first matching rule makes
/// the token and the position advances past it; where no rule matches, a
/// missing-token failure carrying that line and offset, and the position
/// stays.
pub open spec fn next_token_spec(text: Seq<u8>, i: int, line: int) -> LexStep {
    let (j, l) = skip_ws(text, i, line);
    match rule_at(text, j) {
        Some(m) => {
            if m.0 == TokenType::Whitespace {
                // dead: after the whitespace skip the first rule is never
                // the whitespace rule
                LexStep {
                    token: Err(
                        Error {
                            error_type: ErrorType::MissingToken,
                            line: l as usize,
                            position: j as usize,
                        },
                    ),
                    pos: j,
                    line: l,
                }
            } else {
                LexStep { token: Ok(token_of(text, j, l, m.0, m.1)), pos: j + m.1, line: l }
            }
        },
        None => LexStep {
            token: Err(
                Error {
                    error_type: ErrorType::MissingToken,
                    line: l as usize,
                    position: j as usize,
                },
            ),
            pos: j,
            line: l,
        },
    }
}

/// A token-or-failure, seen through the token's model.
pub open spec fn tok_res_view(r: Result<Token, Error>) -> Result<TokenV, Error> {
    match r {
        Ok(t) => Ok(t@),
        Err(e) => Err(e),
    }
}

/// A numeric-literal match is digits with at most one interior dot.
proof fn lemma_number_match_shape(text: Seq<u8>, i: int)
    requires
        0 <= i <= text.len(),
        number_len(text, i) is Some,
    ensures
        is_number_shape(text.subrange(i, i + number_len(text, i)->0)),
        number_len(text, i)->0 >= 1,
{
    lemma_digit_run(text, i);
    let d = digit_run_end(text, i);
    if d < text.len() && text[d] == 46 && d + 1 < text.len() && is_digit_byte(text[d + 1]) {
        lemma_digit_run(text, d + 1);
        let e = digit_run_end(text, d + 1);
        let raw = text.subrange(i, e);
        assert(e >= d + 2);
        assert(d >= i + 1);
        assert forall|k: int| 0 <= k < raw.len() implies (is_digit_byte(#[trigger] raw[k]) || raw[k]
            == 46) by {
            assert(raw[k] == text[i + k]);
        }
        assert(is_digit_byte(raw[0]));
        assert(raw[raw.len() - 1] == text[e - 1]);
        assert(is_digit_byte(raw[raw.len() - 1]));
        assert forall|p: int, q: int|
            0 <= p < q < raw.len() implies !(#[trigger] raw[p] == 46 && #[trigger] raw[q]
            == 46) by {
            assert(raw[p] == text[i + p]);
            assert(raw[q] == text[i + q]);
            if i + p != d {
                assert(is_digit_byte(text[i + p]));
            }
            if i + q != d {
                assert(is_digit_byte(text[i + q]));
            }
        }
    } else {
        let raw = text.subrange(i, d);
        assert(d >= i + 1);
        assert forall|k: int| 0 <= k < raw.len() implies is_digit_byte(#[trigger] raw[k]) by {
            assert(raw[k] == text[i + k]);
        }
        assert forall|p: int, q: int|
            0 <= p < q < raw.len() implies !(#[trigger] raw[p] == 46 && #[trigger] raw[q]
            == 46) by {
            assert(is_digit_byte(raw[p]));
        }
    }
}

/// A string-literal match spans at least its two quotes.
proof fn lemma_string_match_len(text: Seq<u8>, i: int, q: u8)
    requires
        0 <= i,
        string_len(text, i, q) is Some,
    ensures
        string_len(text, i, q)->0 >= 2,
        i + string_len(text, i, q)->0 <= text.len(),
{
    lemma_find_byte(text, i + 1, q);
}

/// Copy of the bytes of `text` from `a` (inclusive) to `b` (exclusive).
pub fn copy_range(text: &Vec<u8>, a: usize, b: usize) -> (r: Vec<u8>)
    requires
        a <= b <= text@.len(),
    ensures
        r@ == text@.subrange(a as int, b as int),
{
    let mut r: Vec<u8> = Vec::new();
    let mut k: usize = a;
    while k < b
        invariant
            a <= k <= b <= text@.len(),
            r@ =~= text@.subrange(a as int, k as int),
        decreases b - k,
    {
        r.push(text[k]);
        k += 1;
        assert(r@ =~= text@.subrange(a as int, k as int));
    }
    assert(r@ =~= text@.subrange(a as int, b as int));
    r
}

/// Builds the payload a token of the given kind carries for the given
/// matched bytes.
fn value_for(kind: TokenType, raw: &Vec<u8>) -> (val: LiteralValue)
    requires
        kind == TokenType::NumericLiteral ==> is_number_shape(raw@),
        kind == TokenType::StringLiteral ==> raw@.len() >= 2,
    ensures
        val@ == value_of(kind, raw@),
{
    match kind {
        TokenType::NumericLiteral => LiteralValue::Number(decimal_to_bits(raw.as_slice())),
        TokenType::StringLiteral => LiteralValue::Text(copy_range(raw, 1, raw.len() - 1)),
        TokenType::Identifier => LiteralValue::Identifier(clone_bytes(raw)),
        TokenType::Comma => LiteralValue::Symbol(clone_bytes(raw)),
        TokenType::Dot => LiteralValue::Symbol(clone_bytes(raw)),
        TokenType::Bang => LiteralValue::Symbol(clone_bytes(raw)),
        TokenType::Question => LiteralValue::Symbol(clone_bytes(raw)),
        TokenType::Interrobang => LiteralValue::Symbol(clone_bytes(raw)),
        TokenType::Semicolon => LiteralValue::Symbol(clone_bytes(raw)),
        TokenType::Colon => LiteralValue::Symbol(clone_bytes(raw)),
        TokenType::LeftParen => LiteralValue::Symbol(clone_bytes(raw)),
        TokenType::RightParen => LiteralValue::Symbol(clone_bytes(raw)),
        TokenType::Plus => LiteralValue::Symbol(clone_bytes(raw)),
        TokenType::Minus => LiteralValue::Symbol(clone_bytes(raw)),
        TokenType::Slash => LiteralValue::Symbol(clone_bytes(raw)),
        TokenType::Star => LiteralValue::Symbol(clone_bytes(raw)),
        TokenType::Mod => LiteralValue::Symbol(clone_bytes(raw)),
        TokenType::Ellipsis => LiteralValue::Symbol(clone_bytes(raw)),
        TokenType::EOF => LiteralValue::eof(),
        TokenType::Whitespace => LiteralValue::absent(),
        TokenType::Invalid => LiteralValue::absent(),
        _ => LiteralValue::Keyword(clone_bytes(raw)),
    }
}

/// Reads one token from `pos` on line `line`: discards whitespace, then
/// either makes the first matching rule's token and advances past it, or
/// reports the missing token and stays.
fn next_token(text: &Vec<u8>, pos: usize, line: usize) -> (r: (Result<Token, Error>, usize, usize))
    requires
        pos <= text@.len(),
        line <= pos,
    ensures
        ({
            let step = next_token_spec(text@, pos as int, line as int);
            &&& tok_res_view(r.0) == step.token
            &&& r.1 == step.pos
            &&& r.2 == step.line
            &&& r.1 <= text@.len()
            &&& r.2 <= r.1
        }),
{
    let total = text.len();
    let mut c: usize = pos;
    let mut l: usize = line;
    let mut m = match_rule(text, c);
    loop
        invariant
            total == text@.len(),
            c <= text@.len(),
            l <= c,
            crate::lexer_rules::rule_match_ok(text@, c as int, m),
            skip_ws(text@, pos as int, line as int) == skip_ws(text@, c as int, l as int),
        ensures
            total == text@.len(),
            c <= text@.len(),
            l <= c,
            crate::lexer_rules::rule_match_ok(text@, c as int, m),
            skip_ws(text@, pos as int, line as int) == (c as int, l as int),
            match m {
                Some(mm) => mm.0 != TokenType::Whitespace,
                None => true,
            },
        decreases text@.len() - c,
    {
        let is_ws_match = match m {
            Some((k, _)) => k == TokenType::Whitespace,
            None => false,
        };
        if !is_ws_match {
            proof {
                // the loop stops exactly where skip_ws does
                assert(skip_ws(text@, c as int, l as int) == (c as int, l as int));
            }
            break ;
        }
        let wl = match m {
            Some((_, w)) => w,
            None => 0,
        };
        proof {
            // a whitespace match covers at least the byte that began it
            assert(rule_at(text@, c as int) == Some((TokenType::Whitespace, wl as int)));
            assert(0 <= c < text@.len() && is_ws_byte(text@[c as int])) by {
                if !(0 <= (c as int) < text@.len() && is_ws_byte(text@[c as int])) {
                    assert(rule_at(text@, c as int) != Some(
                        (TokenType::Whitespace, wl as int),
                    ));
                }
            }
            lemma_ws_run(text@, c as int + 1);
            assert(wl as int == ws_run_end(text@, c as int) - c);
            assert(ws_run_end(text@, c as int) == ws_run_end(text@, c as int + 1));
            assert(wl >= 1);
        }
        let end = c + wl;
        let ghost c0 = c as int;
        let ghost l0 = l as int;
        while c < end
            invariant
                c0 <= c <= end <= text@.len(),
                l0 <= l as int,
                l as int == l0 + newlines_in(text@, c0, c as int),
                l <= c,
            decreases end - c,
        {
            if text[c] == 10 {
                l += 1;
            }
            c += 1;
        }
        proof {
            // one whitespace match is skipped: unfold skip_ws once
            assert(skip_ws(text@, c0, l0) == skip_ws(
                text@,
                c0 + wl as int,
                l0 + newlines_in(text@, c0, c0 + wl as int),
            ));
        }
        m = match_rule(text, c);
    }
    match m {
        None => {
            let err = Error::new(ErrorType::MissingToken, l, c);
            (Err(err), c, l)
        },
        Some((kind, len)) => {
            let raw = copy_range(text, c, c + len);
            proof {
                if kind == TokenType::NumericLiteral {
                    assert(number_len(text@, c as int) == Some(len as int));
                    lemma_number_match_shape(text@, c as int);
                }
                if kind == TokenType::StringLiteral {
                    if string_len(text@, c as int, 34) == Some(len as int) {
                        lemma_string_match_len(text@, c as int, 34);
                    } else {
                        assert(string_len(text@, c as int, 39) == Some(len as int));
                        lemma_string_match_len(text@, c as int, 39);
                    }
                }
            }
            let val = value_for(kind, &raw);
            let tok = Token::new(kind, val, raw.as_slice(), l, c);
            (Ok(tok), c + len, l)
        },
    }
}

/// The lexer's model: the text, the byte offset and line it stands at, and
/// the token (or failure) it will hand out next.
pub struct TokenizerV {
    pub text: Seq<u8>,
    pub current: int,
    pub line: int,
    pub token: Result<TokenV, Error>,
}

impl TokenizerV {
    /// The lexer's position stays inside the text and the line counter
    /// never exceeds the byte offset (lines are counted from zero).
    pub open spec fn wf(self) -> bool {
        &&& 0 <= self.line
        &&& self.line <= self.current
        &&& self.current <= self.text.len()
    }

    /// Whether this state is what reading one token from position `i`,
    /// line `l` of the same text leaves behind.
    pub open spec fn stepped_from(self, text: Seq<u8>, i: int, l: int) -> bool {
        let step = next_token_spec(text, i, l);
        &&& self.text == text
        &&& self.token == step.token
        &&& self.current == step.pos
        &&& self.line == step.line
    }
}

/// Converts a text buffer into tokens on demand: `peek` shows the current
/// token without consuming it, `scan` hands it out and advances to the
/// next non-whitespace token, counting lines on every newline skipped.
pub struct Tokenizer {
    text: Vec<u8>,
    current: usize,
    line: usize,
    token: Result<Token, Error>,
}

impl View for Tokenizer {
    type V = TokenizerV;

    closed spec fn view(&self) -> TokenizerV {
        TokenizerV {
            text: self.text@,
            current: self.current as int,
            line: self.line as int,
            token: tok_res_view(self.token),
        }
    }
}

impl Tokenizer {
    /// A lexer over a copy of the given text, already standing on its
    /// first token: the lexer's state is a function of the text alone.
    pub fn new(text: &[u8]) -> (r: Tokenizer)
        ensures
            r@.wf(),
            r@.stepped_from(text@, 0, 0),
    {
        let owned = slice_to_vec(text);
        let (token, current, line) = next_token(&owned, 0, 0);
        Tokenizer { text: owned, current, line, token }
    }

    /// The current token, not consumed.
    pub fn peek(&self) -> (r: &Result<Token, Error>)
        ensures
            tok_res_view(*r) == self@.token,
    {
        &self.token
    }

    /// Hands out the current token and advances to the next one: the
    /// result is the token `peek` showed, and the new state is a function
    /// of the text and the old position alone. After a lexical failure the
    /// position does not advance, so the failure is handed out again.
    pub fn scan(&mut self) -> (r: Result<Token, Error>)
        requires
            old(self)@.wf(),
        ensures
            tok_res_view(r) == old(self)@.token,
            final(self)@.wf(),
            final(self)@.stepped_from(old(self)@.text, old(self)@.current, old(self)@.line),
    {
        let result = match &self.token {
            Ok(t) => Ok(t.clone()),
            Err(e) => Err(*e),
        };
        let (token, current, line) = next_token(&self.text, self.current, self.line);
        self.token = token;
        self.current = current;
        self.line = line;
        result
    }
}


/// The count of newlines in a span is never negative and never exceeds the
/// span's width.
pub proof fn lemma_newlines_bounds(text: Seq<u8>, a: int, b: int)
    ensures
        0 <= newlines_in(text, a, b),
        a <= b ==> newlines_in(text, a, b) <= b - a,
    decreases b - a,
{
    if a < b {
        lemma_newlines_bounds(text, a, b - 1);
    }
}

/// Skipping whitespace never moves backwards, never leaves the text, and
/// keeps the line counter at or below the byte offset.
pub proof fn lemma_skip_ws_bounds(text: Seq<u8>, i: int, line: int)
    requires
        0 <= i <= text.len(),
    ensures
        ({
            let (j, l) = skip_ws(text, i, line);
            &&& i <= j <= text.len()
            &&& line <= l
            &&& (line <= i ==> l <= j)
        }),
    decreases text.len() - i,
{
    match rule_at(text, i) {
        Some(m) => {
            if m.0 == TokenType::Whitespace && m.1 > 0 && i + m.1 <= text.len() {
                lemma_newlines_bounds(text, i, i + m.1);
                lemma_skip_ws_bounds(text, i + m.1, line + newlines_in(text, i, i + m.1));
            }
        },
        None => {},
    }
}

/// The lexer's state after one more token is read: the position and line
/// move to what `next_token_spec` says, over the same text.
pub open spec fn lx_step(lx: TokenizerV) -> TokenizerV {
    let step = next_token_spec(lx.text, lx.current, lx.line);
    TokenizerV { text: lx.text, current: step.pos, line: step.line, token: step.token }
}

/// How much of the lexer's work is left: the unread bytes, plus one when a
/// real token is still pending.
pub open spec fn lx_measure(lx: TokenizerV) -> int {
    lx.text.len() - lx.current + (match lx.token {
        Ok(t) => {
            if t.token_type != TokenType::EOF {
                1int
            } else {
                0int
            }
        },
        Err(_) => 0int,
    })
}

/// Reading a token preserves the text and well-formedness, never raises
/// the measure, and strictly lowers it while a real token is pending.
pub proof fn lemma_lx_step(lx: TokenizerV)
    requires
        lx.wf(),
    ensures
        lx_step(lx).wf(),
        lx_step(lx).text == lx.text,
        lx_measure(lx_step(lx)) >= 0,
        lx_measure(lx_step(lx)) <= lx_measure(lx),
        (match lx.token {
            Ok(t) => t.token_type != TokenType::EOF,
            Err(_) => false,
        }) ==> lx_measure(lx_step(lx)) < lx_measure(lx),
{
    lemma_skip_ws_bounds(lx.text, lx.current, lx.line);
    let (j, l) = skip_ws(lx.text, lx.current, lx.line);
    match rule_at(lx.text, j) {
        Some(m) => {
            crate::lexer_rules::lemma_rule_len(lx.text, j);
        },
        None => {},
    }
}

} // verus!
