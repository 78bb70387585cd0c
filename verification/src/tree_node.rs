//! The abstract syntax tree: a closed tagged union of every syntactic
//! construct, and the evaluator that reduces arithmetic subtrees to values.

use vstd::prelude::*;
use vstd::string::StringExecFns;

use crate::error_handler::Error;
use crate::error_handler::ErrorType;
use crate::numeric::add_bits;
use crate::numeric::add_bits_of;
use crate::numeric::div_bits;
use crate::numeric::div_bits_of;
use crate::numeric::is_zero_bits;
use crate::numeric::bits_are_zero;
use crate::numeric::mul_bits;
use crate::numeric::mul_bits_of;
use crate::numeric::negate;
use crate::numeric::negate_bits;
use crate::numeric::rem_bits;
use crate::numeric::rem_bits_of;
use crate::numeric::sub_bits;
use crate::numeric::sub_bits_of;
use crate::token::Token;
use crate::token::TokenV;
use crate::token::TokenType;
use crate::value::LiteralValue;
use crate::value::ValueV;

verus! {

/// The leaf constructs, named as the tree shows them.
#[derive(PartialEq, Eq, Structural, Clone, Copy, Debug)]
pub enum LeafKind {
    NumericLiteral,
    StringLiteral,
    Identifier,
    Keyword,
    Comma,
    Dot,
    Bang,
    Question,
    Interrobang,
    Semicolon,
    Colon,
    Ellipsis,
    BooleanLiteral,
    NoneLiteral,
    You,
    EOF,
    Empty,
}

/// The five arithmetic operators; they share one precedence level.
#[derive(PartialEq, Eq, Structural, Clone, Copy, Debug)]
pub enum BinOp {
    Add,
    Sub,
    Mul,
    Div,
    Mod,
}

/// The comparison and boolean operators: recognized, never evaluated.
#[derive(PartialEq, Eq, Structural, Clone, Copy, Debug)]
pub enum CmpOp {
    EqTo,
    NeqTo,
    Or,
    Not,
    And,
    Less,
    Greater,
    LessEq,
    GreaterEq,
}

/// Mathematical model of a tree node.
pub enum NodeV {
    Leaf(LeafKind, ValueV, TokenV),
    Binary(BinOp, Box<NodeV>, Box<NodeV>, TokenV),
    Negation(Box<NodeV>, TokenV),
    Compare(CmpOp, Box<NodeV>, Box<NodeV>, TokenV),
    IfNode(Box<NodeV>, Box<NodeV>, TokenV),
    ThereforeNode(Box<NodeV>, Box<NodeV>, TokenV),
    ParensNode(Box<NodeV>, TokenV, TokenV),
    AssignmentNode(ValueV, ValueV, TokenV),
    DeclarationNode(ValueV, Box<NodeV>, TokenV),
}

/// A node of the syntax tree. Leaf variants hold their payload and the
/// originating token; the arithmetic variants own their children and the
/// operator token; the recognized-but-unsupported constructs are modeled
/// but never evaluated.
#[allow(inconsistent_fields)]
pub enum TreeNode {
    NumericLiteral { val: LiteralValue, token: Token },
    StringLiteral { val: LiteralValue, token: Token },
    Identifier { val: LiteralValue, token: Token },
    Comma { val: LiteralValue, token: Token },
    Dot { val: LiteralValue, token: Token },
    Bang { val: LiteralValue, token: Token },
    Question { val: LiteralValue, token: Token },
    Interrobang { val: LiteralValue, token: Token },
    Semicolon { val: LiteralValue, token: Token },
    Colon { val: LiteralValue, token: Token },
    Parens { val: Box<TreeNode>, left_token: Token, right_token: Token },
    Addition { left: Box<TreeNode>, right: Box<TreeNode>, token: Token },
    Subtraction { left: Box<TreeNode>, right: Box<TreeNode>, token: Token },
    Multiplication { left: Box<TreeNode>, right: Box<TreeNode>, token: Token },
    Division { left: Box<TreeNode>, right: Box<TreeNode>, token: Token },
    Modulo { left: Box<TreeNode>, right: Box<TreeNode>, token: Token },
    Negation { arg: Box<TreeNode>, token: Token },
    Keyword { val: LiteralValue, token: Token },
    Ellipsis { val: LiteralValue, token: Token },
    If { condition: Box<TreeNode>, expression: Box<TreeNode>, token: Token },
    Therefore { condition: Box<TreeNode>, expression: Box<TreeNode>, token: Token },
    EqTo { left: Box<TreeNode>, right: Box<TreeNode>, token: Token },
    NeqTo { left: Box<TreeNode>, right: Box<TreeNode>, token: Token },
    Or { left: Box<TreeNode>, right: Box<TreeNode>, token: Token },
    Not { left: Box<TreeNode>, right: Box<TreeNode>, token: Token },
    And { left: Box<TreeNode>, right: Box<TreeNode>, token: Token },
    Less { left: Box<TreeNode>, right: Box<TreeNode>, token: Token },
    Greater { left: Box<TreeNode>, right: Box<TreeNode>, token: Token },
    LessEq { left: Box<TreeNode>, right: Box<TreeNode>, token: Token },
    GreaterEq { left: Box<TreeNode>, right: Box<TreeNode>, token: Token },
    BooleanLiteral { val: LiteralValue, token: Token },
    NoneLiteral { val: LiteralValue, token: Token },
    You { val: LiteralValue, token: Token },
    Assignment { identifier: LiteralValue, val: LiteralValue, token: Token },
    Declaration { identifier: LiteralValue, val: Box<TreeNode>, token: Token },
    EOF { val: LiteralValue, token: Token },
    Empty { val: LiteralValue, token: Token },
}

/// The model of a tree node.
pub open spec fn node_view(n: TreeNode) -> NodeV
    decreases n,
{
    match n {
        TreeNode::NumericLiteral { val, token } => NodeV::Leaf(
            LeafKind::NumericLiteral,
            val@,
            token@,
        ),
        TreeNode::StringLiteral { val, token } => NodeV::Leaf(LeafKind::StringLiteral, val@, token@),
        TreeNode::Identifier { val, token } => NodeV::Leaf(LeafKind::Identifier, val@, token@),
        TreeNode::Comma { val, token } => NodeV::Leaf(LeafKind::Comma, val@, token@),
        TreeNode::Dot { val, token } => NodeV::Leaf(LeafKind::Dot, val@, token@),
        TreeNode::Bang { val, token } => NodeV::Leaf(LeafKind::Bang, val@, token@),
        TreeNode::Question { val, token } => NodeV::Leaf(LeafKind::Question, val@, token@),
        TreeNode::Interrobang { val, token } => NodeV::Leaf(LeafKind::Interrobang, val@, token@),
        TreeNode::Semicolon { val, token } => NodeV::Leaf(LeafKind::Semicolon, val@, token@),
        TreeNode::Colon { val, token } => NodeV::Leaf(LeafKind::Colon, val@, token@),
        TreeNode::Parens { val, left_token, right_token } => NodeV::ParensNode(
            Box::new(node_view(*val)),
            left_token@,
            right_token@,
        ),
        TreeNode::Addition { left, right, token } => NodeV::Binary(
            BinOp::Add,
            Box::new(node_view(*left)),
            Box::new(node_view(*right)),
            token@,
        ),
        TreeNode::Subtraction { left, right, token } => NodeV::Binary(
            BinOp::Sub,
            Box::new(node_view(*left)),
            Box::new(node_view(*right)),
            token@,
        ),
        TreeNode::Multiplication { left, right, token } => NodeV::Binary(
            BinOp::Mul,
            Box::new(node_view(*left)),
            Box::new(node_view(*right)),
            token@,
        ),
        TreeNode::Division { left, right, token } => NodeV::Binary(
            BinOp::Div,
            Box::new(node_view(*left)),
            Box::new(node_view(*right)),
            token@,
        ),
        TreeNode::Modulo { left, right, token } => NodeV::Binary(
            BinOp::Mod,
            Box::new(node_view(*left)),
            Box::new(node_view(*right)),
            token@,
        ),
        TreeNode::Negation { arg, token } => NodeV::Negation(Box::new(node_view(*arg)), token@),
        TreeNode::Keyword { val, token } => NodeV::Leaf(LeafKind::Keyword, val@, token@),
        TreeNode::Ellipsis { val, token } => NodeV::Leaf(LeafKind::Ellipsis, val@, token@),
        TreeNode::If { condition, expression, token } => NodeV::IfNode(
            Box::new(node_view(*condition)),
            Box::new(node_view(*expression)),
            token@,
        ),
        TreeNode::Therefore { condition, expression, token } => NodeV::ThereforeNode(
            Box::new(node_view(*condition)),
            Box::new(node_view(*expression)),
            token@,
        ),
        TreeNode::EqTo { left, right, token } => NodeV::Compare(
            CmpOp::EqTo,
            Box::new(node_view(*left)),
            Box::new(node_view(*right)),
            token@,
        ),
        TreeNode::NeqTo { left, right, token } => NodeV::Compare(
            CmpOp::NeqTo,
            Box::new(node_view(*left)),
            Box::new(node_view(*right)),
            token@,
        ),
        TreeNode::Or { left, right, token } => NodeV::Compare(
            CmpOp::Or,
            Box::new(node_view(*left)),
            Box::new(node_view(*right)),
            token@,
        ),
        TreeNode::Not { left, right, token } => NodeV::Compare(
            CmpOp::Not,
            Box::new(node_view(*left)),
            Box::new(node_view(*right)),
            token@,
        ),
        TreeNode::And { left, right, token } => NodeV::Compare(
            CmpOp::And,
            Box::new(node_view(*left)),
            Box::new(node_view(*right)),
            token@,
        ),
        TreeNode::Less { left, right, token } => NodeV::Compare(
            CmpOp::Less,
            Box::new(node_view(*left)),
            Box::new(node_view(*right)),
            token@,
        ),
        TreeNode::Greater { left, right, token } => NodeV::Compare(
            CmpOp::Greater,
            Box::new(node_view(*left)),
            Box::new(node_view(*right)),
            token@,
        ),
        TreeNode::LessEq { left, right, token } => NodeV::Compare(
            CmpOp::LessEq,
            Box::new(node_view(*left)),
            Box::new(node_view(*right)),
            token@,
        ),
        TreeNode::GreaterEq { left, right, token } => NodeV::Compare(
            CmpOp::GreaterEq,
            Box::new(node_view(*left)),
            Box::new(node_view(*right)),
            token@,
        ),
        TreeNode::BooleanLiteral { val, token } => NodeV::Leaf(
            LeafKind::BooleanLiteral,
            val@,
            token@,
        ),
        TreeNode::NoneLiteral { val, token } => NodeV::Leaf(LeafKind::NoneLiteral, val@, token@),
        TreeNode::You { val, token } => NodeV::Leaf(LeafKind::You, val@, token@),
        TreeNode::Assignment { identifier, val, token } => NodeV::AssignmentNode(
            identifier@,
            val@,
            token@,
        ),
        TreeNode::Declaration { identifier, val, token } => NodeV::DeclarationNode(
            identifier@,
            Box::new(node_view(*val)),
            token@,
        ),
        TreeNode::EOF { val, token } => NodeV::Leaf(LeafKind::EOF, val@, token@),
        TreeNode::Empty { val, token } => NodeV::Leaf(LeafKind::Empty, val@, token@),
    }
}

impl View for TreeNode {
    type V = NodeV;

    open spec fn view(&self) -> NodeV {
        node_view(*self)
    }
}

/// The bits the given operator yields on the given operand bits.
pub open spec fn apply_bin(op: BinOp, a: u64, b: u64) -> u64 {
    match op {
        BinOp::Add => add_bits_of(a, b),
        BinOp::Sub => sub_bits_of(a, b),
        BinOp::Mul => mul_bits_of(a, b),
        BinOp::Div => div_bits_of(a, b),
        BinOp::Mod => rem_bits_of(a, b),
    }
}

/// What an arithmetic node yields once both children are evaluated: a
/// non-numeric operand fails with invalid operands at the operator token;
/// a division whose right operand is exactly zero fails with divide by
/// zero, checked before the division; otherwise the operation's value.
pub open spec fn bin_result(op: BinOp, lv: ValueV, rv: ValueV, tok: TokenV) -> Result<
    ValueV,
    Error,
> {
    match (lv, rv) {
        (ValueV::Number(a), ValueV::Number(b)) => {
            if op == BinOp::Div && is_zero_bits(b) {
                Err(
                    Error {
                        error_type: ErrorType::DivideByZero,
                        line: tok.line as usize,
                        position: tok.start as usize,
                    },
                )
            } else {
                Ok(ValueV::Number(apply_bin(op, a, b)))
            }
        },
        _ => Err(
            Error {
                error_type: ErrorType::InvalidOperands,
                line: tok.line as usize,
                position: tok.start as usize,
            },
        ),
    }
}

/// The evaluator's result on a tree: arithmetic nodes evaluate both
/// children and combine them, propagating the left child's failure first;
/// negation requires a numeric child; a numeric literal yields its stored
/// value; an empty placeholder yields the absence marker; every other
/// construct fails with not-implemented.
pub open spec fn eval_spec(n: NodeV) -> Result<ValueV, Error>
    decreases n,
{
    match n {
        NodeV::Leaf(LeafKind::NumericLiteral, v, _) => Ok(v),
        NodeV::Leaf(LeafKind::Empty, _, _) => Ok(ValueV::Absent),
        NodeV::Binary(op, l, r, tok) => match eval_spec(*l) {
            Err(e) => Err(e),
            Ok(lv) => match eval_spec(*r) {
                Err(e) => Err(e),
                Ok(rv) => bin_result(op, lv, rv, tok),
            },
        },
        NodeV::Negation(c, tok) => match eval_spec(*c) {
            Err(e) => Err(e),
            Ok(ValueV::Number(a)) => Ok(ValueV::Number(negate_bits(a))),
            Ok(_) => Err(
                Error {
                    error_type: ErrorType::InvalidOperands,
                    line: tok.line as usize,
                    position: tok.start as usize,
                },
            ),
        },
        _ => Err(Error { error_type: ErrorType::NotImplemented, line: 0, position: 0 }),
    }
}

/// A value-or-error, seen through the value's model.
pub open spec fn val_res_view(r: Result<LiteralValue, Error>) -> Result<ValueV, Error> {
    match r {
        Ok(v) => Ok(v@),
        Err(e) => Err(e),
    }
}

/// Applies one arithmetic operator to two evaluated operands.
fn apply_binary(op: BinOp, lv: LiteralValue, rv: LiteralValue, token: &Token) -> (r: Result<
    LiteralValue,
    Error,
>)
    ensures
        val_res_view(r) == bin_result(op, lv@, rv@, token@),
{
    match (lv, rv) {
        (LiteralValue::Number(a), LiteralValue::Number(b)) => {
            if op == BinOp::Div && bits_are_zero(b) {
                Err(Error::new(ErrorType::DivideByZero, token.line(), token.start()))
            } else {
                let bits = match op {
                    BinOp::Add => add_bits(a, b),
                    BinOp::Sub => sub_bits(a, b),
                    BinOp::Mul => mul_bits(a, b),
                    BinOp::Div => div_bits(a, b),
                    BinOp::Mod => rem_bits(a, b),
                };
                Ok(LiteralValue::Number(bits))
            }
        },
        _ => Err(Error::new(ErrorType::InvalidOperands, token.line(), token.start())),
    }
}

impl TreeNode {
    /// Reduces an arithmetic subtree to a value, or fails with the typed
    /// error the evaluation model gives: pure, recursive, and total.
    pub fn eval(&self) -> (r: Result<LiteralValue, Error>)
        ensures
            val_res_view(r) == eval_spec(self@),
        decreases self,
    {
        match self {
            TreeNode::NumericLiteral { val, .. } => Ok(val.clone()),
            TreeNode::Empty { .. } => Ok(LiteralValue::absent()),
            TreeNode::Addition { left, right, token } => match left.eval() {
                Err(e) => Err(e),
                Ok(lv) => match right.eval() {
                    Err(e) => Err(e),
                    Ok(rv) => apply_binary(BinOp::Add, lv, rv, token),
                },
            },
            TreeNode::Subtraction { left, right, token } => match left.eval() {
                Err(e) => Err(e),
                Ok(lv) => match right.eval() {
                    Err(e) => Err(e),
                    Ok(rv) => apply_binary(BinOp::Sub, lv, rv, token),
                },
            },
            TreeNode::Multiplication { left, right, token } => match left.eval() {
                Err(e) => Err(e),
                Ok(lv) => match right.eval() {
                    Err(e) => Err(e),
                    Ok(rv) => apply_binary(BinOp::Mul, lv, rv, token),
                },
            },
            TreeNode::Division { left, right, token } => match left.eval() {
                Err(e) => Err(e),
                Ok(lv) => match right.eval() {
                    Err(e) => Err(e),
                    Ok(rv) => apply_binary(BinOp::Div, lv, rv, token),
                },
            },
            TreeNode::Modulo { left, right, token } => match left.eval() {
                Err(e) => Err(e),
                Ok(lv) => match right.eval() {
                    Err(e) => Err(e),
                    Ok(rv) => apply_binary(BinOp::Mod, lv, rv, token),
                },
            },
            TreeNode::Negation { arg, token } => match arg.eval() {
                Err(e) => Err(e),
                Ok(LiteralValue::Number(a)) => Ok(LiteralValue::Number(negate(a))),
                Ok(_) => Err(Error::new(ErrorType::InvalidOperands, token.line(), token.start())),
            },
            _ => Err(Error::new(ErrorType::NotImplemented, 0, 0)),
        }
    }

    pub fn new_addition(left: Self, right: Self, token: Token) -> (r: Self)
        ensures
            r@ == NodeV::Binary(BinOp::Add, Box::new(left@), Box::new(right@), token@),
    {
        TreeNode::Addition { left: Box::new(left), right: Box::new(right), token }
    }

    pub fn new_subtraction(left: Self, right: Self, token: Token) -> (r: Self)
        ensures
            r@ == NodeV::Binary(BinOp::Sub, Box::new(left@), Box::new(right@), token@),
    {
        TreeNode::Subtraction { left: Box::new(left), right: Box::new(right), token }
    }

    pub fn new_multiplication(left: Self, right: Self, token: Token) -> (r: Self)
        ensures
            r@ == NodeV::Binary(BinOp::Mul, Box::new(left@), Box::new(right@), token@),
    {
        TreeNode::Multiplication { left: Box::new(left), right: Box::new(right), token }
    }

    pub fn new_division(left: Self, right: Self, token: Token) -> (r: Self)
        ensures
            r@ == NodeV::Binary(BinOp::Div, Box::new(left@), Box::new(right@), token@),
    {
        TreeNode::Division { left: Box::new(left), right: Box::new(right), token }
    }

    pub fn new_modulus(left: Self, right: Self, token: Token) -> (r: Self)
        ensures
            r@ == NodeV::Binary(BinOp::Mod, Box::new(left@), Box::new(right@), token@),
    {
        TreeNode::Modulo { left: Box::new(left), right: Box::new(right), token }
    }

    pub fn new_negation(arg: Self, token: Token) -> (r: Self)
        ensures
            r@ == NodeV::Negation(Box::new(arg@), token@),
    {
        TreeNode::Negation { arg: Box::new(arg), token }
    }

    pub fn new_number(val: LiteralValue, token: Token) -> (r: Self)
        ensures
            r@ == NodeV::Leaf(LeafKind::NumericLiteral, val@, token@),
    {
        TreeNode::NumericLiteral { val, token }
    }

    pub fn new_string(val: LiteralValue, token: Token) -> (r: Self)
        ensures
            r@ == NodeV::Leaf(LeafKind::StringLiteral, val@, token@),
    {
        TreeNode::StringLiteral { val, token }
    }

    pub fn new_identifier(val: LiteralValue, token: Token) -> (r: Self)
        ensures
            r@ == NodeV::Leaf(LeafKind::Identifier, val@, token@),
    {
        TreeNode::Identifier { val, token }
    }

    pub fn new_keyword(val: LiteralValue, token: Token) -> (r: Self)
        ensures
            r@ == NodeV::Leaf(LeafKind::Keyword, val@, token@),
    {
        TreeNode::Keyword { val, token }
    }

    pub fn new_empty(val: LiteralValue, token: Token) -> (r: Self)
        ensures
            r@ == NodeV::Leaf(LeafKind::Empty, val@, token@),
    {
        TreeNode::Empty { val, token }
    }

    pub fn new_comma(val: LiteralValue, token: Token) -> (r: Self)
        ensures
            r@ == NodeV::Leaf(LeafKind::Comma, val@, token@),
    {
        TreeNode::Comma { val, token }
    }

    pub fn new_dot(val: LiteralValue, token: Token) -> (r: Self)
        ensures
            r@ == NodeV::Leaf(LeafKind::Dot, val@, token@),
    {
        TreeNode::Dot { val, token }
    }

    pub fn new_bang(val: LiteralValue, token: Token) -> (r: Self)
        ensures
            r@ == NodeV::Leaf(LeafKind::Bang, val@, token@),
    {
        TreeNode::Bang { val, token }
    }

    pub fn new_question(val: LiteralValue, token: Token) -> (r: Self)
        ensures
            r@ == NodeV::Leaf(LeafKind::Question, val@, token@),
    {
        TreeNode::Question { val, token }
    }

    pub fn new_interrobang(val: LiteralValue, token: Token) -> (r: Self)
        ensures
            r@ == NodeV::Leaf(LeafKind::Interrobang, val@, token@),
    {
        TreeNode::Interrobang { val, token }
    }

    pub fn new_semicolon(val: LiteralValue, token: Token) -> (r: Self)
        ensures
            r@ == NodeV::Leaf(LeafKind::Semicolon, val@, token@),
    {
        TreeNode::Semicolon { val, token }
    }

    pub fn new_colon(val: LiteralValue, token: Token) -> (r: Self)
        ensures
            r@ == NodeV::Leaf(LeafKind::Colon, val@, token@),
    {
        TreeNode::Colon { val, token }
    }

    pub fn new_if(condition: Self, expression: Self, token: Token) -> (r: Self)
        ensures
            r@ == NodeV::IfNode(Box::new(condition@), Box::new(expression@), token@),
    {
        TreeNode::If { condition: Box::new(condition), expression: Box::new(expression), token }
    }

    /// Makes a boolean literal leaf; any other payload than a boolean is
    /// an invalid token value at the token's position.
    pub fn new_bool(val: LiteralValue, token: Token) -> (r: Result<Self, Error>)
        ensures
            match r {
                Ok(n) => val@ is Boolean && n@ == NodeV::Leaf(LeafKind::BooleanLiteral, val@, token@),
                Err(e) => !(val@ is Boolean) && e == (Error {
                    error_type: ErrorType::InvalidTokenValue,
                    line: token@.line as usize,
                    position: token@.start as usize,
                }),
            },
    {
        match val {
            LiteralValue::Boolean(_) => Ok(TreeNode::BooleanLiteral { val, token }),
            _ => Err(Error::new(ErrorType::InvalidTokenValue, token.line(), token.start())),
        }
    }

    pub fn new_none(val: LiteralValue, token: Token) -> (r: Self)
        ensures
            r@ == NodeV::Leaf(LeafKind::NoneLiteral, val@, token@),
    {
        TreeNode::NoneLiteral { val, token }
    }

    pub fn new_eof(val: LiteralValue, token: Token) -> (r: Self)
        ensures
            r@ == NodeV::Leaf(LeafKind::EOF, val@, token@),
    {
        TreeNode::EOF { val, token }
    }

    pub fn new_you(val: LiteralValue, token: Token) -> (r: Self)
        ensures
            r@ == NodeV::Leaf(LeafKind::You, val@, token@),
    {
        TreeNode::You { val, token }
    }

    /// The leaf a lone token becomes: numeric and string literals keep
    /// their payload; any other token becomes an empty placeholder.
    pub fn from_token(tkn: Token) -> (r: Self)
        ensures
            r@ == (if tkn@.token_type == TokenType::NumericLiteral {
                NodeV::Leaf(LeafKind::NumericLiteral, tkn@.val, tkn@)
            } else if tkn@.token_type == TokenType::StringLiteral {
                NodeV::Leaf(LeafKind::StringLiteral, tkn@.val, tkn@)
            } else {
                NodeV::Leaf(LeafKind::Empty, tkn@.val, tkn@)
            }),
    {
        let val = tkn.val.clone();
        match tkn.token_type {
            TokenType::NumericLiteral => TreeNode::new_number(val, tkn),
            TokenType::StringLiteral => TreeNode::new_string(val, tkn),
            _ => TreeNode::Empty { val, token: tkn },
        }
    }
}


/// The display name of each construct.
pub open spec fn node_kind_name(n: NodeV) -> Seq<char> {
    match n {
        NodeV::Leaf(k, _, _) => match k {
            LeafKind::NumericLiteral => "NumericLiteral"@,
            LeafKind::StringLiteral => "StringLiteral"@,
            LeafKind::Identifier => "Identifier"@,
            LeafKind::Keyword => "Keyword"@,
            LeafKind::Comma => "Comma"@,
            LeafKind::Dot => "Dot"@,
            LeafKind::Bang => "Bang"@,
            LeafKind::Question => "Question"@,
            LeafKind::Interrobang => "Interrobang"@,
            LeafKind::Semicolon => "Semicolon"@,
            LeafKind::Colon => "Colon"@,
            LeafKind::Ellipsis => "Ellipsis"@,
            LeafKind::BooleanLiteral => "BooleanLiteral"@,
            LeafKind::NoneLiteral => "None"@,
            LeafKind::You => "You"@,
            LeafKind::EOF => "EOF"@,
            LeafKind::Empty => "null"@,
        },
        NodeV::Binary(op, _, _, _) => match op {
            BinOp::Add => "Addition"@,
            BinOp::Sub => "Subtraction"@,
            BinOp::Mul => "Multiplication"@,
            BinOp::Div => "Division"@,
            BinOp::Mod => "Modulo"@,
        },
        NodeV::Negation(_, _) => "Negation"@,
        NodeV::Compare(op, _, _, _) => match op {
            CmpOp::EqTo => "Equal To"@,
            CmpOp::NeqTo => "Not Equal To"@,
            CmpOp::Or => "Or"@,
            CmpOp::Not => "Not"@,
            CmpOp::And => "And"@,
            CmpOp::Less => "Less Than"@,
            CmpOp::Greater => "Greater Than"@,
            CmpOp::LessEq => "Less Than Or Equal To"@,
            CmpOp::GreaterEq => "Greater Than Or Equal To"@,
        },
        NodeV::IfNode(_, _, _) => "If"@,
        NodeV::ThereforeNode(_, _, _) => "Therefore"@,
        NodeV::ParensNode(_, _, _) => "Parenthesis"@,
        NodeV::AssignmentNode(_, _, _) => "Assignment"@,
        NodeV::DeclarationNode(_, _, _) => "Declaration"@,
    }
}

impl TreeNode {
    /// Renders the construct's display name.
    pub fn get_type(&self) -> (r: String)
        ensures
            r@ == node_kind_name(self@),
    {
        match self {
            TreeNode::NumericLiteral { .. } => String::from_str("NumericLiteral"),
            TreeNode::StringLiteral { .. } => String::from_str("StringLiteral"),
            TreeNode::Identifier { .. } => String::from_str("Identifier"),
            TreeNode::Comma { .. } => String::from_str("Comma"),
            TreeNode::Dot { .. } => String::from_str("Dot"),
            TreeNode::Bang { .. } => String::from_str("Bang"),
            TreeNode::Question { .. } => String::from_str("Question"),
            TreeNode::Interrobang { .. } => String::from_str("Interrobang"),
            TreeNode::Semicolon { .. } => String::from_str("Semicolon"),
            TreeNode::Colon { .. } => String::from_str("Colon"),
            TreeNode::Parens { .. } => String::from_str("Parenthesis"),
            TreeNode::Addition { .. } => String::from_str("Addition"),
            TreeNode::Subtraction { .. } => String::from_str("Subtraction"),
            TreeNode::Multiplication { .. } => String::from_str("Multiplication"),
            TreeNode::Division { .. } => String::from_str("Division"),
            TreeNode::Modulo { .. } => String::from_str("Modulo"),
            TreeNode::Negation { .. } => String::from_str("Negation"),
            TreeNode::Keyword { .. } => String::from_str("Keyword"),
            TreeNode::Ellipsis { .. } => String::from_str("Ellipsis"),
            TreeNode::If { .. } => String::from_str("If"),
            TreeNode::Therefore { .. } => String::from_str("Therefore"),
            TreeNode::EqTo { .. } => String::from_str("Equal To"),
            TreeNode::NeqTo { .. } => String::from_str("Not Equal To"),
            TreeNode::Or { .. } => String::from_str("Or"),
            TreeNode::Not { .. } => String::from_str("Not"),
            TreeNode::And { .. } => String::from_str("And"),
            TreeNode::Less { .. } => String::from_str("Less Than"),
            TreeNode::Greater { .. } => String::from_str("Greater Than"),
            TreeNode::LessEq { .. } => String::from_str("Less Than Or Equal To"),
            TreeNode::GreaterEq { .. } => String::from_str("Greater Than Or Equal To"),
            TreeNode::BooleanLiteral { .. } => String::from_str("BooleanLiteral"),
            TreeNode::NoneLiteral { .. } => String::from_str("None"),
            TreeNode::You { .. } => String::from_str("You"),
            TreeNode::Assignment { .. } => String::from_str("Assignment"),
            TreeNode::Declaration { .. } => String::from_str("Declaration"),
            TreeNode::EOF { .. } => String::from_str("EOF"),
            TreeNode::Empty { .. } => String::from_str("null"),
        }
    }
}

} // verus!
