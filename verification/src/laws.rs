//! The laws the library states about itself: lexing is a function of the
//! text alone, spans cover the source exactly, keyword priority is kept,
//! the expression fold is left-associative, and division by zero is caught
//! before dividing.

use vstd::prelude::*;

use crate::error_handler::Error;
use crate::error_handler::ErrorType;
use crate::lexer::Tokenizer;
use crate::lexer::TokenizerV;
use crate::lexer::lemma_lx_step;
use crate::lexer::lemma_skip_ws_bounds;
use crate::lexer::lx_measure;
use crate::lexer::lx_step;
use crate::lexer::next_token_spec;
use crate::lexer::skip_ws;
use crate::lexer::tok_res_view;
use crate::lexer_rules::is_prefix_at;
use crate::lexer_rules::lemma_rule_len;
use crate::lexer_lits::lit_eq_to;
use crate::lexer_lits::lit_if_cap;
use crate::lexer_lits::lit_if_lc;
use crate::lexer_lits::lit_neq_to;
use crate::lexer_lits::lit_therefore_cap;
use crate::lexer_lits::lit_therefore_lc;
use crate::lexer_rules::rule_at;
use crate::numeric::is_zero_bits;
use crate::numeric::mul_bits_of;
use crate::numeric::div_bits_of;
use crate::numeric::negate_bits;
use crate::token::Token;
use crate::token::TokenType;
use crate::token::TokenV;
use crate::tree_node::BinOp;
use crate::tree_node::NodeV;
use crate::tree_node::eval_spec;
use crate::value::ValueV;

verus! {

/// The whole token stream of a lexer state: the pending token, then, while
/// it is a real token, the stream of the stepped state. A lexical failure
/// or the end-of-input token ends the stream.
pub open spec fn stream_from(lx: TokenizerV) -> Seq<Result<TokenV, Error>>
    decreases lx_measure(lx),
        when lx.wf()
        via stream_from_decreases
{
    match lx.token {
        Err(e) => seq![Err(e)],
        Ok(t) => {
            if t.token_type == TokenType::EOF {
                seq![Ok(t)]
            } else {
                seq![Ok(t)] + stream_from(lx_step(lx))
            }
        },
    }
}

#[via_fn]
proof fn stream_from_decreases(lx: TokenizerV) {
    if lx.wf() {
        match lx.token {
            Ok(t) => {
                if t.token_type != TokenType::EOF {
                    lemma_lx_step(lx);
                }
            },
            Err(_) => {},
        }
    }
}

/// The token stream of a whole text: everything the lexer hands out, in
/// order, until the end-of-input token or the first failure.
pub open spec fn token_stream(text: Seq<u8>) -> Seq<Result<TokenV, Error>> {
    let step = next_token_spec(text, 0, 0);
    stream_from(TokenizerV { text, current: step.pos, line: step.line, token: step.token })
}

/// Lexing is deterministic: the token stream, positions included, is a
/// function of the text alone, so identical texts always lex to identical
/// streams.
pub proof fn lemma_lexing_deterministic(t1: Seq<u8>, t2: Seq<u8>)
    requires
        t1 == t2,
    ensures
        token_stream(t1) == token_stream(t2),
{
}

/// A token-or-failure sequence, seen through the tokens' models.
pub open spec fn results_view(s: Seq<Result<Token, Error>>) -> Seq<Result<TokenV, Error>> {
    s.map_values(|x: Result<Token, Error>| tok_res_view(x))
}

/// Lexes a whole text: the tokens in order, ending with the end-of-input
/// token or with the first lexical failure. The result is exactly the
/// text's token stream.
pub fn lex_all(text: &[u8]) -> (r: Vec<Result<Token, Error>>)
    ensures
        results_view(r@) == token_stream(text@),
{
    let mut tokenizer = Tokenizer::new(text);
    let mut out: Vec<Result<Token, Error>> = Vec::new();
    let ghost whole = stream_from(tokenizer@);
    loop
        invariant_except_break
            results_view(out@) + stream_from(tokenizer@) == whole,
        invariant
            tokenizer@.wf(),
        ensures
            results_view(out@) == whole,
        decreases lx_measure(tokenizer@),
    {
        let stop = match tokenizer.peek() {
            Ok(t) => t.token_type == TokenType::EOF,
            Err(_) => true,
        };
        proof {
            lemma_lx_step(tokenizer@);
        }
        let ghost pre = tokenizer@;
        let tok = tokenizer.scan();
        out.push(tok);
        proof {
            assert(results_view(out@) =~= results_view(out@.drop_last()).push(
                tok_res_view(out@.last()),
            ));
            if stop {
                assert(stream_from(pre) =~= seq![pre.token]);
                assert(results_view(out@) + stream_from(tokenizer@) == whole || results_view(out@)
                    =~= whole);
            } else {
                assert(stream_from(pre) =~= seq![pre.token] + stream_from(lx_step(pre)));
                assert(results_view(out@) + stream_from(tokenizer@) =~= whole);
            }
        }
        if stop {
            proof {
                assert(results_view(out@) =~= whole);
            }
            break ;
        }
    }
    out
}

/// Whether lexing the whole text from this position succeeds: every token
/// up to the end-of-input token is read without a lexical failure.
pub open spec fn lex_ok(text: Seq<u8>, i: int, line: int) -> bool
    decreases text.len() - i,
        when 0 <= i <= text.len()
        via lex_ok_decreases
{
    let step = next_token_spec(text, i, line);
    match step.token {
        Err(_) => false,
        Ok(t) => t.token_type == TokenType::EOF || lex_ok(text, step.pos, step.line),
    }
}

/// Reading one real token strictly advances the position.
proof fn lemma_step_advances(text: Seq<u8>, i: int, line: int)
    requires
        0 <= i <= text.len(),
    ensures
        ({
            let step = next_token_spec(text, i, line);
            &&& skip_ws(text, i, line).0 <= step.pos <= text.len()
            &&& i <= skip_ws(text, i, line).0
            &&& (match step.token {
                Ok(t) => t.token_type != TokenType::EOF ==> step.pos > i,
                Err(_) => true,
            })
        }),
{
    lemma_skip_ws_bounds(text, i, line);
    let (j, l) = skip_ws(text, i, line);
    if rule_at(text, j) is Some {
        lemma_rule_len(text, j);
    }
}

#[via_fn]
proof fn lex_ok_decreases(text: Seq<u8>, i: int, line: int) {
    if 0 <= i <= text.len() {
        lemma_step_advances(text, i, line);
    }
}

/// The bytes that lexing from a position covers: the whitespace skipped
/// before each token, then the token's raw text, in order.
pub open spec fn lexed_text(text: Seq<u8>, i: int, line: int) -> Seq<u8>
    decreases text.len() - i,
        when 0 <= i <= text.len()
        via lexed_text_decreases
{
    let (j, l) = skip_ws(text, i, line);
    let step = next_token_spec(text, i, line);
    match step.token {
        Err(_) => text.subrange(i, j),
        Ok(t) => {
            if t.token_type == TokenType::EOF {
                text.subrange(i, j)
            } else {
                text.subrange(i, j) + t.raw + lexed_text(text, step.pos, step.line)
            }
        },
    }
}

#[via_fn]
proof fn lexed_text_decreases(text: Seq<u8>, i: int, line: int) {
    if 0 <= i <= text.len() {
        lemma_step_advances(text, i, line);
    }
}

/// The span invariant: every token the lexer reads carries exactly the
/// bytes of the text between its start offset and its end offset, and its
/// end offset is its start offset plus its raw text's length.
pub proof fn lemma_token_span(text: Seq<u8>, i: int, line: int)
    requires
        0 <= i <= text.len(),
    ensures
        match next_token_spec(text, i, line).token {
            Ok(t) => {
                &&& t.end() == t.start + t.raw.len()
                &&& t.start + t.raw.len() <= text.len()
                &&& t.raw == text.subrange(t.start as int, t.end() as int)
            },
            Err(_) => true,
        },
{
    lemma_skip_ws_bounds(text, i, line);
    let (j, l) = skip_ws(text, i, line);
    if rule_at(text, j) is Some {
        lemma_rule_len(text, j);
    }
}

/// Source reconstruction: when a text lexes without failure, concatenating
/// the skipped whitespace and the tokens' raw texts, in order, gives back
/// the text from the starting position to its end.
#[verifier::rlimit(100)]
#[verifier::spinoff_prover]
pub proof fn lemma_lexing_reconstructs(text: Seq<u8>, i: int, line: int)
    requires
        0 <= i <= text.len(),
        lex_ok(text, i, line),
    ensures
        lexed_text(text, i, line) == text.subrange(i, text.len() as int),
    decreases text.len() - i,
{
    lemma_step_advances(text, i, line);
    let (j, l) = skip_ws(text, i, line);
    let step = next_token_spec(text, i, line);
    match step.token {
        Err(_) => {},
        Ok(t) => {
            lemma_rule_len(text, j);
            if t.token_type == TokenType::EOF {
                // the end-of-input rule fires only at the text's end
                assert(j == text.len());
            } else {
                lemma_lexing_reconstructs(text, step.pos, step.line);
                assert(t.raw == text.subrange(j, step.pos));
                assert(text.subrange(i, j) + text.subrange(j, step.pos) + text.subrange(
                    step.pos,
                    text.len() as int,
                ) =~= text.subrange(i, text.len() as int));
            }
        },
    }
}

/// Keyword priority: wherever the bytes of the phrase for not-equal stand,
/// the lexer's rule list matches the not-equal keyword there, never the
/// shorter plain-not keyword that is its textual prefix.
pub proof fn lemma_neq_before_not(text: Seq<u8>, i: int)
    requires
        is_prefix_at(text, i, lit_neq_to()),
    ensures
        rule_at(text, i) == Some((TokenType::NeqTo, 15int)),
{
    assert(text.subrange(i, i + 15)[0] == text[i]);
    assert forall|k: int| 0 <= k < 15 implies text[i + k] == lit_neq_to()[k] by {
        assert(text.subrange(i, i + 15)[k] == text[i + k]);
    }
    assert(!is_prefix_at(text, i, lit_if_lc())) by {
        if is_prefix_at(text, i, lit_if_lc()) {
            assert(text.subrange(i, i + 2)[1] == text[i + 1]);
        }
    }
    assert(!is_prefix_at(text, i, lit_if_cap())) by {
        if is_prefix_at(text, i, lit_if_cap()) {
            assert(text.subrange(i, i + 2)[0] == text[i]);
        }
    }
    assert(!is_prefix_at(text, i, lit_therefore_lc())) by {
        if is_prefix_at(text, i, lit_therefore_lc()) {
            assert(text.subrange(i, i + 11)[0] == text[i]);
        }
    }
    assert(!is_prefix_at(text, i, lit_therefore_cap())) by {
        if is_prefix_at(text, i, lit_therefore_cap()) {
            assert(text.subrange(i, i + 11)[0] == text[i]);
        }
    }
    assert(!is_prefix_at(text, i, lit_eq_to())) by {
        if is_prefix_at(text, i, lit_eq_to()) {
            assert(text.subrange(i, i + 11)[3] == text[i + 3]);
        }
    }
}

/// Division by zero is caught before the division: where both children of
/// a division evaluate to numbers and the right one's value is exactly
/// zero, the division evaluates to the divide-by-zero error at the
/// operator token's position; where the right value is not zero, it
/// evaluates to the quotient's value.
pub proof fn lemma_divide_by_zero(l: NodeV, r: NodeV, t: TokenV, a: u64, b: u64)
    requires
        eval_spec(l) == Ok::<ValueV, Error>(ValueV::Number(a)),
        eval_spec(r) == Ok::<ValueV, Error>(ValueV::Number(b)),
    ensures
        is_zero_bits(b) ==> eval_spec(NodeV::Binary(BinOp::Div, Box::new(l), Box::new(r), t))
            == Err::<ValueV, Error>(
            Error {
                error_type: ErrorType::DivideByZero,
                line: t.line as usize,
                position: t.start as usize,
            },
        ),
        !is_zero_bits(b) ==> eval_spec(NodeV::Binary(BinOp::Div, Box::new(l), Box::new(r), t))
            == Ok::<ValueV, Error>(ValueV::Number(div_bits_of(a, b))),
{
}

/// Negation of a numeric child yields the child's value with its sign bit
/// flipped.
pub proof fn lemma_negation(n: NodeV, t: TokenV, a: u64)
    requires
        eval_spec(n) == Ok::<ValueV, Error>(ValueV::Number(a)),
    ensures
        eval_spec(NodeV::Negation(Box::new(n), t)) == Ok::<ValueV, Error>(
            ValueV::Number(negate_bits(a)),
        ),
{
}

/// The expression fold is a flat left fold: each operator encountered
/// wraps the tree built so far as the *left* child of the new node, so all
/// five operators combine strictly left-to-right, with no precedence among
/// them.
pub proof fn lemma_left_fold(acc: NodeV, lx: TokenizerV, errs: Seq<Error>, t: TokenV)
    requires
        lx.wf(),
        lx.token == Ok::<TokenV, Error>(t),
        crate::parser::is_operator(t.token_type),
    ensures
        ({
            let (rhs, lx2, errs2) = crate::parser::spec_parse_f(lx_step(lx), errs);
            crate::parser::spec_parse_e_loop(acc, lx, errs) == crate::parser::spec_parse_e_loop(
                crate::parser::bin_node_of(t.token_type, acc, rhs, t),
                lx2,
                errs2,
            )
        }),
{
    lemma_lx_step(lx);
    crate::parser::lemma_spec_parse_f_progress(lx_step(lx), errs);
}


/// Unknown-character resilience: where no rule matches after the
/// whitespace skip, the lexer yields a missing-token failure carrying
/// exactly that line and byte offset, and stands still rather than
/// crashing or advancing.
pub proof fn lemma_unknown_character(text: Seq<u8>, i: int, line: int)
    requires
        rule_at(text, skip_ws(text, i, line).0) is None,
    ensures
        ({
            let (j, l) = skip_ws(text, i, line);
            let step = next_token_spec(text, i, line);
            &&& step.token == Err::<TokenV, Error>(
                Error { error_type: ErrorType::MissingToken, line: l as usize, position: j as usize },
            )
            &&& step.pos == j
            &&& step.line == l
        }),
{
}

/// String-literal stripping: a string-literal token's payload is its raw
/// text without the opening and closing quote bytes.
pub proof fn lemma_string_value(text: Seq<u8>, i: int, line: int)
    requires
        0 <= i <= text.len(),
    ensures
        match next_token_spec(text, i, line).token {
            Ok(t) => t.token_type == TokenType::StringLiteral ==> t.val == ValueV::Text(
                t.raw.subrange(1, t.raw.len() - 1),
            ),
            Err(_) => true,
        },
{
}


/// The whole-text reading of source reconstruction: a text that lexes
/// without failure is covered exactly, whitespace and tokens together.
pub proof fn lemma_source_reconstructed(text: Seq<u8>)
    requires
        lex_ok(text, 0, 0),
    ensures
        lexed_text(text, 0, 0) == text,
{
    lemma_lexing_reconstructs(text, 0, 0);
    assert(text.subrange(0, text.len() as int) =~= text);
}


/// Multiplication commutativity, as far as it can be shown here: whenever
/// the underlying arithmetic is symmetric in two operand bit patterns (the
/// trusted multiplication promises this of non-NaN operands), evaluating
/// their product in either order yields one and the same result.
pub proof fn lemma_multiplication_commutes(l: NodeV, r: NodeV, t: TokenV, a: u64, b: u64)
    requires
        eval_spec(l) == Ok::<ValueV, Error>(ValueV::Number(a)),
        eval_spec(r) == Ok::<ValueV, Error>(ValueV::Number(b)),
        mul_bits_of(a, b) == mul_bits_of(b, a),
    ensures
        eval_spec(NodeV::Binary(BinOp::Mul, Box::new(l), Box::new(r), t)) == eval_spec(
            NodeV::Binary(BinOp::Mul, Box::new(r), Box::new(l), t),
        ),
{
}

} // verus!
