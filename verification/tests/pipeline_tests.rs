use novel::Error;
use novel::ErrorType;
use novel::LiteralValue;
use novel::Token;
use novel::TokenType;
use novel::TreeNode;
use novel::Tokenizer;
use novel::lex_all;
use novel::parse;

fn same_token(a: &Token, b: &Token) -> bool {
    a.token_type == b.token_type && a.val == b.val && a.raw == b.raw && a.line == b.line
        && a.start == b.start
}

fn same_result(a: &Result<Token, Error>, b: &Result<Token, Error>) -> bool {
    match (a, b) {
        (Ok(x), Ok(y)) => same_token(x, y),
        (Err(x), Err(y)) => x == y,
        _ => false,
    }
}

fn eval_f64(tree: &TreeNode) -> f64 {
    match tree.eval() {
        Ok(LiteralValue::Number(bits)) => f64::from_bits(bits),
        other => panic!("expected a number, got {:?}", other.map(|_| ())),
    }
}

#[test]
fn lexing_deterministic() {
    let text: &[u8] = b"If You is not equal to 12.5, \"words\" + 3 / none!";
    let first = lex_all(text);
    let second = lex_all(text);
    assert_eq!(first.len(), second.len());
    for (a, b) in first.iter().zip(second.iter()) {
        assert!(same_result(a, b));
    }
}

#[test]
fn span_invariant_reconstructs_source() {
    let text: &[u8] = b"  2 +\n 30 * Abc \"hi\" true  ";
    let tokens = lex_all(text);
    let mut rebuilt: Vec<u8> = Vec::new();
    let mut prev_end: usize = 0;
    for item in &tokens {
        let tok = item.as_ref().expect("this text lexes without failure");
        assert_eq!(tok.start + tok.raw.len(), tok.end());
        assert!(prev_end <= tok.start);
        rebuilt.extend_from_slice(&text[prev_end..tok.start]);
        rebuilt.extend_from_slice(&tok.raw);
        prev_end = tok.end();
    }
    assert_eq!(rebuilt.as_slice(), text);
}

#[test]
fn keyword_prefix_ordering() {
    let tokens = lex_all(b"is not equal to X");
    let first = tokens[0].as_ref().expect("the phrase itself lexes");
    assert_eq!(first.token_type, TokenType::NeqTo);
    assert_eq!(first.raw.as_slice(), b"is not equal to");
    assert_eq!(first.raw.len(), 15);
    // the shorter prefix keyword must not win
    assert_ne!(first.token_type, TokenType::Not);
}

#[test]
fn left_fold_evaluation() {
    let (tree, diagnostics) = parse(b"2 + 3 * 4");
    assert!(!diagnostics.has_errors());
    assert_eq!(eval_f64(&tree), 20.0);
    assert_ne!(eval_f64(&tree), 14.0);
}

#[test]
fn negation_evaluates() {
    let (tree, diagnostics) = parse(b"-5 + 2");
    assert!(!diagnostics.has_errors());
    assert_eq!(eval_f64(&tree), -3.0);
}

#[test]
fn divide_by_zero_is_caught() {
    let (tree, diagnostics) = parse(b"10 / 0");
    assert!(!diagnostics.has_errors());
    match tree.eval() {
        Err(e) => {
            assert_eq!(e.error_type, ErrorType::DivideByZero);
        },
        Ok(_) => panic!("division by zero must not produce a value"),
    }
}

#[test]
fn multiplication_commutes_on_fixed_values() {
    let cases: [(f64, f64); 4] = [(2.5, -4.0), (0.1, 0.3), (-7.25, -0.5), (1e300, 1e-300)];
    for (a, b) in cases {
        let token = Token::new(
            TokenType::Star,
            LiteralValue::new_symbol(b"*"),
            b"*",
            0,
            0,
        );
        let one = TreeNode::new_multiplication(
            TreeNode::new_number(LiteralValue::new_number(a.to_bits()), token.clone()),
            TreeNode::new_number(LiteralValue::new_number(b.to_bits()), token.clone()),
            token.clone(),
        );
        let other = TreeNode::new_multiplication(
            TreeNode::new_number(LiteralValue::new_number(b.to_bits()), token.clone()),
            TreeNode::new_number(LiteralValue::new_number(a.to_bits()), token.clone()),
            token,
        );
        assert_eq!(eval_f64(&one), eval_f64(&other));
        assert_eq!(eval_f64(&one), a * b);
    }
}

#[test]
fn unknown_character_is_resilient() {
    let tokenizer = Tokenizer::new(b"@");
    match tokenizer.peek() {
        Err(e) => {
            assert_eq!(e.error_type, ErrorType::MissingToken);
            assert_eq!(e.line, 0);
            assert_eq!(e.position, 0);
        },
        Ok(_) => panic!("no rule matches an at sign"),
    }
    let (_tree, diagnostics) = parse(b"@");
    assert!(diagnostics.has_errors());
    assert!(diagnostics
        .errors()
        .iter()
        .any(|e| e.error_type == ErrorType::MissingToken && e.line == 0 && e.position == 0));
}

#[test]
fn string_literal_stripping() {
    let tokens = lex_all(b"\"hello\"");
    let first = tokens[0].as_ref().expect("a quoted literal lexes");
    assert_eq!(first.token_type, TokenType::StringLiteral);
    assert_eq!(first.raw.as_slice(), b"\"hello\"");
    match &first.val {
        LiteralValue::Text(inner) => assert_eq!(inner.as_slice(), b"hello"),
        _ => panic!("expected a text payload"),
    }
}

#[test]
fn single_quoted_string_literal() {
    let tokens = lex_all(b"'abc'");
    let first = tokens[0].as_ref().expect("a quoted literal lexes");
    assert_eq!(first.token_type, TokenType::StringLiteral);
    match &first.val {
        LiteralValue::Text(inner) => assert_eq!(inner.as_slice(), b"abc"),
        _ => panic!("expected a text payload"),
    }
}

#[test]
fn numeric_literal_value() {
    let tokens = lex_all(b"2.5");
    let first = tokens[0].as_ref().expect("a number lexes");
    assert_eq!(first.token_type, TokenType::NumericLiteral);
    match &first.val {
        LiteralValue::Number(bits) => {
            assert_eq!(*bits, 2.5f64.to_bits());
            assert_eq!(f64::from_bits(*bits), 2.5);
        },
        _ => panic!("expected a numeric payload"),
    }
    let tokens = lex_all(b"12");
    let first = tokens[0].as_ref().expect("a number lexes");
    match &first.val {
        LiteralValue::Number(bits) => assert_eq!(f64::from_bits(*bits), 12.0),
        _ => panic!("expected a numeric payload"),
    }
}

#[test]
fn arithmetic_through_the_pipeline() {
    let (tree, diagnostics) = parse(b"7 - 2");
    assert!(!diagnostics.has_errors());
    assert_eq!(eval_f64(&tree), 5.0);
    let (tree, diagnostics) = parse(b"7 / 2");
    assert!(!diagnostics.has_errors());
    assert_eq!(eval_f64(&tree), 3.5);
}

#[test]
fn modulo_evaluates_as_remainder() {
    let token = Token::new(TokenType::Mod, LiteralValue::new_symbol(b"%"), b"%", 0, 0);
    let tree = TreeNode::new_modulus(
        TreeNode::new_number(LiteralValue::new_number(7.0f64.to_bits()), token.clone()),
        TreeNode::new_number(LiteralValue::new_number(4.0f64.to_bits()), token.clone()),
        token,
    );
    assert_eq!(eval_f64(&tree), 7.0 % 4.0);
}

#[test]
fn invalid_operands_are_reported() {
    let token = Token::new(TokenType::Plus, LiteralValue::new_symbol(b"+"), b"+", 2, 9);
    // an empty placeholder evaluates to the absence marker, which is no number
    let tree = TreeNode::new_addition(
        TreeNode::new_empty(LiteralValue::absent(), token.clone()),
        TreeNode::new_number(LiteralValue::new_number(1.0f64.to_bits()), token.clone()),
        token,
    );
    match tree.eval() {
        Err(e) => {
            assert_eq!(e.error_type, ErrorType::InvalidOperands);
            assert_eq!(e.line, 2);
            assert_eq!(e.position, 9);
        },
        Ok(_) => panic!("absence plus number must not evaluate"),
    }
}

#[test]
fn unsupported_constructs_are_not_implemented() {
    let token = Token::new(TokenType::You, LiteralValue::new_keyword(b"You"), b"You", 0, 0);
    let tree = TreeNode::new_you(LiteralValue::new_keyword(b"You"), token);
    match tree.eval() {
        Err(e) => {
            assert_eq!(e.error_type, ErrorType::NotImplemented);
            assert_eq!(e.line, 0);
            assert_eq!(e.position, 0);
        },
        Ok(_) => panic!("the You construct has no evaluation"),
    }
    let (_tree, diagnostics) = parse(b"if 1");
    assert!(diagnostics
        .errors()
        .iter()
        .any(|e| e.error_type == ErrorType::NotImplemented));
}

#[test]
fn operator_without_operand_is_unexpected() {
    let (_tree, diagnostics) = parse(b"+");
    assert!(diagnostics.has_errors());
    assert_eq!(diagnostics.errors()[0].error_type, ErrorType::UnexpectedToken);
    assert_eq!(diagnostics.errors()[0].line, 0);
    assert_eq!(diagnostics.errors()[0].position, 0);
}

#[test]
fn empty_placeholder_evaluates_to_absent() {
    let node = TreeNode::new_empty(LiteralValue::absent(), Token::invalid());
    match node.eval() {
        Ok(LiteralValue::Absent) => {},
        _ => panic!("an empty placeholder evaluates to the absence marker"),
    }
}

#[test]
fn line_and_offset_tracking() {
    let tokens = lex_all(b"1\n 2");
    let first = tokens[0].as_ref().unwrap();
    assert_eq!(first.line, 0);
    assert_eq!(first.start, 0);
    let second = tokens[1].as_ref().unwrap();
    assert_eq!(second.token_type, TokenType::NumericLiteral);
    assert_eq!(second.line, 1);
    assert_eq!(second.start, 3);
}

#[test]
fn interrobang_lexes() {
    let text: Vec<u8> = vec![226, 128, 189];
    let tokens = lex_all(&text);
    let first = tokens[0].as_ref().unwrap();
    assert_eq!(first.token_type, TokenType::Interrobang);
    assert_eq!(first.raw.len(), 3);
}

#[test]
fn keyword_and_punctuation_kinds() {
    let kinds: Vec<TokenType> = lex_all(b"You , . ! ? ; : ( ) true false none and or called")
        .iter()
        .map(|r| r.as_ref().unwrap().token_type)
        .collect();
    assert_eq!(
        kinds,
        vec![
            TokenType::You,
            TokenType::Comma,
            TokenType::Dot,
            TokenType::Bang,
            TokenType::Question,
            TokenType::Semicolon,
            TokenType::Colon,
            TokenType::LeftParen,
            TokenType::RightParen,
            TokenType::True,
            TokenType::False,
            TokenType::NoneKw,
            TokenType::And,
            TokenType::Or,
            TokenType::IdKeyword,
            TokenType::EOF,
        ]
    );
}

#[test]
fn identifier_needs_two_characters() {
    let tokens = lex_all(b"Abc1_x");
    let first = tokens[0].as_ref().unwrap();
    assert_eq!(first.token_type, TokenType::Identifier);
    assert_eq!(first.raw.as_slice(), b"Abc1_x");
    // a lone uppercase letter matches no rule
    let tokens = lex_all(b"X");
    assert!(tokens[0].is_err());
}

#[test]
fn error_rendering() {
    let err = Error::new(ErrorType::DivideByZero, 3, 17);
    assert_eq!(err.to_string(), "Divide by Zero[3:17]");
    let err = Error::new(ErrorType::MissingToken, 0, 0);
    assert_eq!(err.to_string(), "Missing Token[0:0]");
    let err = Error::new(ErrorType::UnexpectedToken, 12, 104);
    assert_eq!(err.to_string(), "Unexpected Token[12:104]");
    assert_eq!(ErrorType::InvalidOperands.get_type(), "Invalid Operands");
    assert_eq!(ErrorType::NotImplemented.get_type(), "Not Implemented");
    assert_eq!(ErrorType::InvalidTokenValue.get_type(), "Invalid Token Value");
    assert_eq!(ErrorType::UnknownToken.get_type(), "Unknown Token");
}

#[test]
fn token_constructors_validate_payloads() {
    let ok = Token::new_comma(LiteralValue::new_symbol(b","), b",", 1, 2);
    assert!(ok.is_ok());
    let bad = Token::new_comma(LiteralValue::new_symbol(b"."), b",", 1, 2);
    match bad {
        Err(e) => {
            assert_eq!(e.error_type, ErrorType::InvalidTokenValue);
            assert_eq!(e.line, 1);
            assert_eq!(e.position, 2);
        },
        Ok(_) => panic!("a dot payload is no comma"),
    }
    assert!(Token::new_if(LiteralValue::new_keyword(b"if"), b"if", 0, 0).is_ok());
    assert!(Token::new_if(LiteralValue::new_keyword(b"If"), b"If", 0, 0).is_ok());
    assert!(Token::new_if(LiteralValue::new_keyword(b"woe"), b"woe", 0, 0).is_err());
    assert!(Token::new_number(LiteralValue::new_number(1.0f64.to_bits()), b"1", 0, 0).is_ok());
    assert!(Token::new_number(LiteralValue::new_keyword(b"1"), b"1", 0, 0).is_err());
    assert!(Token::new_eof(LiteralValue::eof(), b"", 0, 7).is_ok());
}

#[test]
fn boolean_literal_parses_and_new_bool_validates() {
    let (tree, diagnostics) = parse(b"true");
    assert!(!diagnostics.has_errors());
    match tree {
        TreeNode::BooleanLiteral { val, .. } => {
            assert_eq!(val, LiteralValue::new_bool(true));
        },
        _ => panic!("true parses to a boolean literal leaf"),
    }
    let bad = TreeNode::new_bool(
        LiteralValue::new_keyword(b"true"),
        Token::new(TokenType::True, LiteralValue::new_keyword(b"true"), b"true", 4, 9),
    );
    match bad {
        Err(e) => {
            assert_eq!(e.error_type, ErrorType::InvalidTokenValue);
            assert_eq!(e.line, 4);
            assert_eq!(e.position, 9);
        },
        Ok(_) => panic!("a keyword payload is no boolean"),
    }
}

#[test]
fn from_token_keeps_literals() {
    let tok = Token::new(
        TokenType::NumericLiteral,
        LiteralValue::new_number(8.0f64.to_bits()),
        b"8",
        0,
        0,
    );
    match TreeNode::from_token(tok) {
        TreeNode::NumericLiteral { val, .. } => {
            assert_eq!(val, LiteralValue::new_number(8.0f64.to_bits()))
        },
        _ => panic!("a numeric token becomes a numeric literal leaf"),
    }
    let tok = Token::new(TokenType::Plus, LiteralValue::new_symbol(b"+"), b"+", 0, 0);
    match TreeNode::from_token(tok) {
        TreeNode::Empty { .. } => {},
        _ => panic!("any other token becomes an empty placeholder"),
    }
}

#[test]
fn get_type_names() {
    let (tree, _diagnostics) = parse(b"2 + 3");
    assert_eq!(tree.get_type(), "Addition");
    let node = TreeNode::new_empty(LiteralValue::absent(), Token::invalid());
    assert_eq!(node.get_type(), "null");
}

#[test]
fn assignment_phrase_lexes_with_spaces() {
    let tokens = lex_all(b"it is 5");
    let first = tokens[0].as_ref().unwrap();
    assert_eq!(first.token_type, TokenType::Assignment);
    assert_eq!(first.raw.as_slice(), b"it is ");
    let second = tokens[1].as_ref().unwrap();
    assert_eq!(second.token_type, TokenType::NumericLiteral);
}

#[test]
fn empty_text_parses_to_end_of_input() {
    let (tree, diagnostics) = parse(b"");
    assert!(!diagnostics.has_errors());
    match tree {
        TreeNode::EOF { .. } => {},
        _ => panic!("empty text parses to the end-of-input leaf"),
    }
}

#[test]
fn comparison_keywords_are_not_implemented() {
    let (_tree, diagnostics) = parse(b"is equal to");
    assert!(diagnostics.has_errors());
    assert_eq!(diagnostics.errors()[0].error_type, ErrorType::NotImplemented);
    assert_eq!(diagnostics.errors()[0].line, 0);
    assert_eq!(diagnostics.errors()[0].position, 0);
    let (_tree, diagnostics) = parse(b"or");
    assert_eq!(diagnostics.errors()[0].error_type, ErrorType::NotImplemented);
    let (_tree, diagnostics) = parse(b"is less than or equal to");
    assert_eq!(diagnostics.errors()[0].error_type, ErrorType::NotImplemented);
}

#[test]
fn numeric_equality_is_ieee() {
    // a huge literal minus itself overflows to infinity and gives NaN
    let big = "1".repeat(400);
    let text = format!("{} - {}", big, big);
    let (tree, diagnostics) = parse(text.as_bytes());
    assert!(!diagnostics.has_errors());
    let val = tree.eval().unwrap();
    match &val {
        LiteralValue::Number(bits) => assert!(f64::from_bits(*bits).is_nan()),
        _ => panic!("expected a numeric payload"),
    }
    // a NaN payload equals nothing, not even itself
    assert_ne!(val, val);
    // the two zeros are distinct patterns but equal values
    let (plus_zero, d1) = parse(b"0");
    let (minus_zero, d2) = parse(b"-0");
    assert!(!d1.has_errors() && !d2.has_errors());
    let a = plus_zero.eval().unwrap();
    let b = minus_zero.eval().unwrap();
    match (&a, &b) {
        (LiteralValue::Number(x), LiteralValue::Number(y)) => assert_ne!(x, y),
        _ => panic!("expected numeric payloads"),
    }
    assert_eq!(a, b);
}
