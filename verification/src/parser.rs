//! The parser: two recursive-descent rules with one-token lookahead.
//!
//! A factor is a literal, a punctuation leaf, a negated factor, or the
//! end-of-input marker; an expression is a flat left fold of factors under
//! the five arithmetic operators, which share one precedence level and
//! combine strictly left-to-right in the order encountered. The parser is
//! resilient: on an unexpected token, a recognized-but-unsupported
//! construct, or a lexical failure it records a diagnostic, substitutes an
//! empty placeholder node, and goes on.

use vstd::prelude::*;

use crate::error_handler::Error;
use crate::error_handler::ErrorHandler;
use crate::error_handler::ErrorType;
use crate::lexer::Tokenizer;
use crate::lexer::TokenizerV;
use crate::lexer::lemma_lx_step;
use crate::lexer::lx_measure;
use crate::lexer::lx_step;
use crate::lexer::next_token_spec;
use crate::token::Token;
use crate::token::TokenType;
use crate::token::TokenV;
use crate::tree_node::BinOp;
use crate::tree_node::LeafKind;
use crate::tree_node::NodeV;
use crate::tree_node::TreeNode;
use crate::value::LiteralValue;
use crate::value::ValueV;

verus! {

/// The model of the placeholder token that stands where no token could be
/// read.
pub open spec fn invalid_token_view() -> TokenV {
    TokenV {
        token_type: TokenType::Invalid,
        val: ValueV::Absent,
        raw: seq![0u8],
        line: 0,
        start: 0,
    }
}

/// The empty node the parser substitutes where it could not read a token
/// at all.
pub open spec fn empty_recovery_node() -> NodeV {
    NodeV::Leaf(LeafKind::Empty, ValueV::Absent, invalid_token_view())
}

/// The five token kinds that continue an expression.
pub open spec fn is_operator(k: TokenType) -> bool {
    ||| k == TokenType::Plus
    ||| k == TokenType::Minus
    ||| k == TokenType::Star
    ||| k == TokenType::Slash
    ||| k == TokenType::Mod
}

/// The token kinds the parser recognizes but does not support: control
/// flow, declarations, assignments, parenthesized grouping, and the
/// comparison and boolean operators. Where one of them stands in operand
/// position the parser records a not-implemented diagnostic and
/// substitutes an empty node.
pub open spec fn is_unsupported(k: TokenType) -> bool {
    ||| k == TokenType::If
    ||| k == TokenType::Therefore
    ||| k == TokenType::Assignment
    ||| k == TokenType::Declaration
    ||| k == TokenType::IdKeyword
    ||| k == TokenType::LeftParen
    ||| k == TokenType::EqTo
    ||| k == TokenType::NeqTo
    ||| k == TokenType::Or
    ||| k == TokenType::Not
    ||| k == TokenType::And
    ||| k == TokenType::Less
    ||| k == TokenType::Greater
    ||| k == TokenType::LessEq
    ||| k == TokenType::GreaterEq
}

/// The arithmetic node one operator token builds from two children.
pub open spec fn bin_node_of(k: TokenType, l: NodeV, r: NodeV, t: TokenV) -> NodeV {
    if k == TokenType::Plus {
        NodeV::Binary(BinOp::Add, Box::new(l), Box::new(r), t)
    } else if k == TokenType::Minus {
        NodeV::Binary(BinOp::Sub, Box::new(l), Box::new(r), t)
    } else if k == TokenType::Star {
        NodeV::Binary(BinOp::Mul, Box::new(l), Box::new(r), t)
    } else if k == TokenType::Slash {
        NodeV::Binary(BinOp::Div, Box::new(l), Box::new(r), t)
    } else {
        NodeV::Binary(BinOp::Mod, Box::new(l), Box::new(r), t)
    }
}

/// A diagnostic at a token's position.
pub open spec fn error_at(kind: ErrorType, t: TokenV) -> Error {
    Error { error_type: kind, line: t.line as usize, position: t.start as usize }
}

/// The factor rule. On a pending lexical failure it records an
/// unexpected-token diagnostic at the failure's position, substitutes an
/// empty node, and does not consume anything. Otherwise it consumes one
/// token: literals and punctuation become their leaves; a minus becomes
/// the negation of the factor after it; true and false become boolean
/// literal leaves; a recognized-but-unsupported construct or any other
/// token out of place becomes an empty node with the fitting diagnostic.
pub open spec fn spec_parse_f(lx: TokenizerV, errs: Seq<Error>) -> (NodeV, TokenizerV, Seq<Error>)
    decreases lx_measure(lx),
        when lx.wf()
        via spec_parse_f_decreases
{
    match lx.token {
        Err(e) => (
            empty_recovery_node(),
            lx,
            errs.push(Error { error_type: ErrorType::UnexpectedToken, line: e.line, position: e.position }),
        ),
        Ok(t) => {
            let lx1 = lx_step(lx);
            match t.token_type {
                TokenType::NumericLiteral => (
                    NodeV::Leaf(LeafKind::NumericLiteral, t.val, t),
                    lx1,
                    errs,
                ),
                TokenType::StringLiteral => (NodeV::Leaf(LeafKind::StringLiteral, t.val, t), lx1, errs),
                TokenType::Identifier => (NodeV::Leaf(LeafKind::Identifier, t.val, t), lx1, errs),
                TokenType::Comma => (NodeV::Leaf(LeafKind::Comma, t.val, t), lx1, errs),
                TokenType::Dot => (NodeV::Leaf(LeafKind::Dot, t.val, t), lx1, errs),
                TokenType::Bang => (NodeV::Leaf(LeafKind::Bang, t.val, t), lx1, errs),
                TokenType::Question => (NodeV::Leaf(LeafKind::Question, t.val, t), lx1, errs),
                TokenType::Interrobang => (NodeV::Leaf(LeafKind::Interrobang, t.val, t), lx1, errs),
                TokenType::Semicolon => (NodeV::Leaf(LeafKind::Semicolon, t.val, t), lx1, errs),
                TokenType::Colon => (NodeV::Leaf(LeafKind::Colon, t.val, t), lx1, errs),
                TokenType::Minus => {
                    let (child, lx2, errs2) = spec_parse_f(lx1, errs);
                    (NodeV::Negation(Box::new(child), t), lx2, errs2)
                },
                TokenType::True => (
                    NodeV::Leaf(LeafKind::BooleanLiteral, ValueV::Boolean(true), t),
                    lx1,
                    errs,
                ),
                TokenType::False => (
                    NodeV::Leaf(LeafKind::BooleanLiteral, ValueV::Boolean(false), t),
                    lx1,
                    errs,
                ),
                TokenType::NoneKw => (NodeV::Leaf(LeafKind::NoneLiteral, t.val, t), lx1, errs),
                TokenType::You => (NodeV::Leaf(LeafKind::You, t.val, t), lx1, errs),
                TokenType::EOF => (NodeV::Leaf(LeafKind::EOF, t.val, t), lx1, errs),
                _ => {
                    if is_unsupported(t.token_type) {
                        (
                            NodeV::Leaf(LeafKind::Empty, t.val, t),
                            lx1,
                            errs.push(error_at(ErrorType::NotImplemented, t)),
                        )
                    } else {
                        (
                            NodeV::Leaf(LeafKind::Empty, t.val, t),
                            lx1,
                            errs.push(error_at(ErrorType::UnexpectedToken, t)),
                        )
                    }
                },
            }
        },
    }
}

#[via_fn]
proof fn spec_parse_f_decreases(lx: TokenizerV, errs: Seq<Error>) {
    if lx.wf() {
        match lx.token {
            Ok(t) => {
                if t.token_type == TokenType::Minus {
                    lemma_lx_step(lx);
                }
            },
            Err(_) => {},
        }
    }
}

/// The factor rule leaves the lexer well formed over the same text and
/// never raises its measure.
pub proof fn lemma_spec_parse_f_progress(lx: TokenizerV, errs: Seq<Error>)
    requires
        lx.wf(),
    ensures
        ({
            let (n, lx2, errs2) = spec_parse_f(lx, errs);
            &&& lx2.wf()
            &&& lx2.text == lx.text
            &&& lx_measure(lx2) <= lx_measure(lx)
        }),
    decreases lx_measure(lx),
{
    match lx.token {
        Err(_) => {},
        Ok(t) => {
            lemma_lx_step(lx);
            if t.token_type == TokenType::Minus {
                lemma_spec_parse_f_progress(lx_step(lx), errs);
            }
        },
    }
}

/// The expression rule's fold: while the pending token is one of the five
/// operators, consume it, parse the factor after it, and wrap the tree
/// built so far as the left child of the new operator node. A pending
/// lexical failure is recorded as it stands and ends the fold; any other
/// pending token ends it silently.
pub open spec fn spec_parse_e_loop(acc: NodeV, lx: TokenizerV, errs: Seq<Error>) -> (
    NodeV,
    TokenizerV,
    Seq<Error>,
)
    decreases lx_measure(lx),
        when lx.wf()
        via spec_parse_e_loop_decreases
{
    match lx.token {
        Ok(t) => {
            if is_operator(t.token_type) {
                let lx1 = lx_step(lx);
                let (rhs, lx2, errs2) = spec_parse_f(lx1, errs);
                spec_parse_e_loop(bin_node_of(t.token_type, acc, rhs, t), lx2, errs2)
            } else {
                (acc, lx, errs)
            }
        },
        Err(e) => (acc, lx, errs.push(e)),
    }
}

#[via_fn]
proof fn spec_parse_e_loop_decreases(acc: NodeV, lx: TokenizerV, errs: Seq<Error>) {
    if lx.wf() {
        match lx.token {
            Ok(t) => {
                if is_operator(t.token_type) {
                    lemma_lx_step(lx);
                    lemma_spec_parse_f_progress(lx_step(lx), errs);
                }
            },
            Err(_) => {},
        }
    }
}

/// The expression rule: one factor, then the left fold over operators.
pub open spec fn spec_parse_e(lx: TokenizerV, errs: Seq<Error>) -> (NodeV, TokenizerV, Seq<Error>) {
    let (f, lx1, errs1) = spec_parse_f(lx, errs);
    spec_parse_e_loop(f, lx1, errs1)
}

/// What parsing a whole text yields: the tree of its one expression and
/// the diagnostics collected along the way, in insertion order.
pub open spec fn parse_spec(text: Seq<u8>) -> (NodeV, Seq<Error>) {
    let step = next_token_spec(text, 0, 0);
    let lx0 = TokenizerV { text, current: step.pos, line: step.line, token: step.token };
    let (node, lx1, errs) = spec_parse_e(lx0, Seq::<Error>::empty());
    (node, errs)
}

/// Parses one factor, reporting into the handler and substituting an empty
/// node where the model says so.
fn parse_f(tokenizer: &mut Tokenizer, error_handler: &mut ErrorHandler) -> (node: TreeNode)
    requires
        old(tokenizer)@.wf(),
    ensures
        final(tokenizer)@.wf(),
        final(tokenizer)@.text == old(tokenizer)@.text,
        (node@, final(tokenizer)@, final(error_handler)@) == spec_parse_f(
            old(tokenizer)@,
            old(error_handler)@,
        ),
    decreases lx_measure(old(tokenizer)@),
{
    match tokenizer.peek() {
        Err(e) => {
            let err = *e;
            error_handler.report(Error::new(ErrorType::UnexpectedToken, err.line, err.position));
            return TreeNode::new_empty(LiteralValue::absent(), Token::invalid());
        },
        Ok(_) => {},
    }
    proof {
        lemma_lx_step(old(tokenizer)@);
    }
    let tkn = tokenizer.scan().unwrap();
    match tkn.token_type {
        TokenType::NumericLiteral => {
            let val = tkn.val.clone();
            TreeNode::new_number(val, tkn)
        },
        TokenType::StringLiteral => {
            let val = tkn.val.clone();
            TreeNode::new_string(val, tkn)
        },
        TokenType::Identifier => {
            let val = tkn.val.clone();
            TreeNode::new_identifier(val, tkn)
        },
        TokenType::Comma => {
            let val = tkn.val.clone();
            TreeNode::new_comma(val, tkn)
        },
        TokenType::Dot => {
            let val = tkn.val.clone();
            TreeNode::new_dot(val, tkn)
        },
        TokenType::Bang => {
            let val = tkn.val.clone();
            TreeNode::new_bang(val, tkn)
        },
        TokenType::Question => {
            let val = tkn.val.clone();
            TreeNode::new_question(val, tkn)
        },
        TokenType::Interrobang => {
            let val = tkn.val.clone();
            TreeNode::new_interrobang(val, tkn)
        },
        TokenType::Semicolon => {
            let val = tkn.val.clone();
            TreeNode::new_semicolon(val, tkn)
        },
        TokenType::Colon => {
            let val = tkn.val.clone();
            TreeNode::new_colon(val, tkn)
        },
        TokenType::Minus => {
            let child = parse_f(tokenizer, error_handler);
            TreeNode::new_negation(child, tkn)
        },
        TokenType::True => TreeNode::new_bool(LiteralValue::new_bool(true), tkn).unwrap(),
        TokenType::False => TreeNode::new_bool(LiteralValue::new_bool(false), tkn).unwrap(),
        TokenType::NoneKw => {
            let val = tkn.val.clone();
            TreeNode::new_none(val, tkn)
        },
        TokenType::You => {
            let val = tkn.val.clone();
            TreeNode::new_you(val, tkn)
        },
        TokenType::EOF => {
            let val = tkn.val.clone();
            TreeNode::new_eof(val, tkn)
        },
        TokenType::If
        | TokenType::Therefore
        | TokenType::Assignment
        | TokenType::Declaration
        | TokenType::IdKeyword
        | TokenType::LeftParen
        | TokenType::EqTo
        | TokenType::NeqTo
        | TokenType::Or
        | TokenType::Not
        | TokenType::And
        | TokenType::Less
        | TokenType::Greater
        | TokenType::LessEq
        | TokenType::GreaterEq => {
            error_handler.report(Error::new(ErrorType::NotImplemented, tkn.line, tkn.start));
            let val = tkn.val.clone();
            TreeNode::new_empty(val, tkn)
        },
        _ => {
            error_handler.report(Error::new(ErrorType::UnexpectedToken, tkn.line, tkn.start));
            let val = tkn.val.clone();
            TreeNode::new_empty(val, tkn)
        },
    }
}

/// Parses one expression: a factor, then the flat left fold over the five
/// operators.
fn parse_e(tokenizer: &mut Tokenizer, error_handler: &mut ErrorHandler) -> (node: TreeNode)
    requires
        old(tokenizer)@.wf(),
    ensures
        final(tokenizer)@.wf(),
        final(tokenizer)@.text == old(tokenizer)@.text,
        (node@, final(tokenizer)@, final(error_handler)@) == spec_parse_e(
            old(tokenizer)@,
            old(error_handler)@,
        ),
{
    let mut e = parse_f(tokenizer, error_handler);
    let ghost target = spec_parse_e_loop(e@, tokenizer@, error_handler@);
    loop
        invariant_except_break
            spec_parse_e_loop(e@, tokenizer@, error_handler@) == target,
        invariant
            tokenizer@.wf(),
            tokenizer@.text == old(tokenizer)@.text,
        ensures
            tokenizer@.wf(),
            tokenizer@.text == old(tokenizer)@.text,
            (e@, tokenizer@, error_handler@) == target,
        decreases lx_measure(tokenizer@),
    {
        let proceed = match tokenizer.peek() {
            Ok(t) => {
                t.token_type == TokenType::Plus || t.token_type == TokenType::Minus
                    || t.token_type == TokenType::Star || t.token_type == TokenType::Slash
                    || t.token_type == TokenType::Mod
            },
            Err(e) => {
                let err = *e;
                error_handler.report(err);
                false
            },
        };
        if !proceed {
            break ;
        }
        proof {
            lemma_lx_step(tokenizer@);
        }
        let op = tokenizer.scan().unwrap();
        let ghost lx1 = tokenizer@;
        proof {
            lemma_spec_parse_f_progress(lx1, error_handler@);
        }
        let rhs = parse_f(tokenizer, error_handler);
        e = match op.token_type {
            TokenType::Plus => TreeNode::new_addition(e, rhs, op),
            TokenType::Minus => TreeNode::new_subtraction(e, rhs, op),
            TokenType::Star => TreeNode::new_multiplication(e, rhs, op),
            TokenType::Slash => TreeNode::new_division(e, rhs, op),
            TokenType::Mod => TreeNode::new_modulus(e, rhs, op),
            _ => TreeNode::new_empty(LiteralValue::absent(), Token::invalid()),
        };
    }
    e
}

/// Parses a whole text buffer: returns the (possibly partial) tree of its
/// one expression together with the diagnostics collected along the way.
/// Nothing here panics or prints; the caller decides what a non-empty
/// diagnostics collection means.
pub fn parse(text: &[u8]) -> (r: (TreeNode, ErrorHandler))
    ensures
        (r.0@, r.1@) == parse_spec(text@),
{
    let mut tokenizer = Tokenizer::new(text);
    let mut error_handler = ErrorHandler::new();
    let tree = parse_e(&mut tokenizer, &mut error_handler);
    (tree, error_handler)
}

} // verus!
