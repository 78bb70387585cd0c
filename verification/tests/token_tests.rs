use novel::TokenType;
use novel::add;

#[test]
fn it_works() {
    let result = add(2, 2);
    assert_eq!(result, 4);
}

#[test]
fn lib_it_works() {
    let result = add(2, 2);
    assert_eq!(result, 4);
}

#[test]
fn token_type_to_string() {
    assert_eq!(TokenType::Identifier.to_string(), "Identifier");
    assert_eq!(TokenType::NumericLiteral.to_string(), "NumericLiteral");
    assert_eq!(TokenType::StringLiteral.to_string(), "StringLiteral");
    assert_eq!(TokenType::NumericLiteral.to_string(), "NumericLiteral");
    assert_eq!(TokenType::StringLiteral.to_string(), "StringLiteral");
    assert_eq!(TokenType::Identifier.to_string(), "Identifier");
    assert_eq!(TokenType::Comma.to_string(), ",");
    assert_eq!(TokenType::Dot.to_string(), ".");
    assert_eq!(TokenType::Bang.to_string(), "!");
    assert_eq!(TokenType::Question.to_string(), "?");
    assert_eq!(TokenType::Interrobang.to_string(), "\u{203D}");
    assert_eq!(TokenType::LeftParen.to_string(), "(");
    assert_eq!(TokenType::RightParen.to_string(), ")");
    assert_eq!(TokenType::Plus.to_string(), "+");
    assert_eq!(TokenType::Minus.to_string(), "-");
    assert_eq!(TokenType::Star.to_string(), "*");
    assert_eq!(TokenType::Slash.to_string(), "/");
    assert_eq!(TokenType::Colon.to_string(), ":");
    assert_eq!(TokenType::Semicolon.to_string(), ";");
    assert_eq!(TokenType::Ellipsis.to_string(), "...");
    assert_eq!(TokenType::If.to_string(), "If");
    assert_eq!(TokenType::Therefore.to_string(), "Therefore");
    assert_eq!(TokenType::And.to_string(), "And");
    assert_eq!(TokenType::Or.to_string(), "Or");
    assert_eq!(TokenType::Not.to_string(), "Not");
    assert_eq!(TokenType::EqTo.to_string(), "==");
    assert_eq!(TokenType::NeqTo.to_string(), "!=");
    assert_eq!(TokenType::Less.to_string(), "<");
    assert_eq!(TokenType::LessEq.to_string(), "<=");
    assert_eq!(TokenType::Greater.to_string(), ">");
    assert_eq!(TokenType::GreaterEq.to_string(), ">=");
    assert_eq!(TokenType::True.to_string(), "True");
    assert_eq!(TokenType::False.to_string(), "False");
    assert_eq!(TokenType::You.to_string(), "You");
    assert_eq!(TokenType::NoneKw.to_string(), "None");
    assert_eq!(TokenType::IdKeyword.to_string(), "Id Keyword");
    assert_eq!(TokenType::Declaration.to_string(), "Declaration");
    assert_eq!(TokenType::Assignment.to_string(), "Assignment");
    assert_eq!(TokenType::EOF.to_string(), "EOF");
}

#[test]
fn token_token_type_to_string() {
    assert_eq!(TokenType::Identifier.to_string(), "Identifier");
    assert_eq!(TokenType::NumericLiteral.to_string(), "NumericLiteral");
    assert_eq!(TokenType::StringLiteral.to_string(), "StringLiteral");
    assert_eq!(TokenType::Comma.to_string(), ",");
    assert_eq!(TokenType::Dot.to_string(), ".");
    assert_eq!(TokenType::Bang.to_string(), "!");
    assert_eq!(TokenType::Question.to_string(), "?");
    assert_eq!(TokenType::Interrobang.to_string(), "\u{203D}");
    assert_eq!(TokenType::LeftParen.to_string(), "(");
    assert_eq!(TokenType::RightParen.to_string(), ")");
    assert_eq!(TokenType::Plus.to_string(), "+");
    assert_eq!(TokenType::Minus.to_string(), "-");
    assert_eq!(TokenType::Star.to_string(), "*");
    assert_eq!(TokenType::Slash.to_string(), "/");
    assert_eq!(TokenType::Mod.to_string(), "%");
    assert_eq!(TokenType::Colon.to_string(), ":");
    assert_eq!(TokenType::Semicolon.to_string(), ";");
    assert_eq!(TokenType::Ellipsis.to_string(), "...");
    assert_eq!(TokenType::If.to_string(), "If");
    assert_eq!(TokenType::Therefore.to_string(), "Therefore");
    assert_eq!(TokenType::And.to_string(), "And");
    assert_eq!(TokenType::Or.to_string(), "Or");
    assert_eq!(TokenType::Not.to_string(), "Not");
    assert_eq!(TokenType::EqTo.to_string(), "==");
    assert_eq!(TokenType::NeqTo.to_string(), "!=");
    assert_eq!(TokenType::Less.to_string(), "<");
    assert_eq!(TokenType::LessEq.to_string(), "<=");
    assert_eq!(TokenType::Greater.to_string(), ">");
    assert_eq!(TokenType::GreaterEq.to_string(), ">=");
    assert_eq!(TokenType::True.to_string(), "True");
    assert_eq!(TokenType::False.to_string(), "False");
    assert_eq!(TokenType::You.to_string(), "You");
    assert_eq!(TokenType::NoneKw.to_string(), "None");
    assert_eq!(TokenType::IdKeyword.to_string(), "Id Keyword");
    assert_eq!(TokenType::Declaration.to_string(), "Declaration");
    assert_eq!(TokenType::Assignment.to_string(), "Assignment");
    assert_eq!(TokenType::EOF.to_string(), "EOF");
}
