//! Front end of a small expression-oriented language: a lexer that turns
//! source text into typed tokens, a recursive-descent parser that builds an
//! abstract syntax tree, and an evaluator that reduces arithmetic subtrees
//! to values, with diagnostics collected along the way instead of panics.

pub mod error_handler;
pub mod laws;
pub mod lexer;
pub mod lexer_lits;
pub mod lexer_rules;
pub mod numeric;
pub mod parser;
pub mod token;
pub mod token_ctors;
pub mod tree_node;
pub mod value;

pub use error_handler::Error;
pub use error_handler::ErrorHandler;
pub use error_handler::ErrorType;
pub use laws::lex_all;
pub use lexer::Tokenizer;
pub use parser::parse;
pub use token::Token;
pub use token::TokenType;
pub use token::TokenV;
pub use tree_node::NodeV;
pub use tree_node::TreeNode;
pub use value::LiteralValue;
pub use value::ValueV;

use vstd::prelude::*;

verus! {

/// Sums two machine words: the library's smallest contract, exercised by
/// its smoke tests.
pub fn add(left: usize, right: usize) -> (r: usize)
    requires
        left + right <= usize::MAX,
    ensures
        r == left + right,
{
    left + right
}

} // verus!
