use novel::LiteralValue;
use novel::Token;
use novel::TokenType;
use novel::TreeNode;

fn get_test_token() -> Token {
    Token::new(
        TokenType::NumericLiteral,
        LiteralValue::new_number(0.0f64.to_bits()),
        b"0",
        0,
        0,
    )
}

fn number_node(x: f64) -> TreeNode {
    TreeNode::new_number(LiteralValue::new_number(x.to_bits()), get_test_token())
}

fn literal_as_f64(val: &LiteralValue) -> Option<f64> {
    match val {
        LiteralValue::Number(bits) => Some(f64::from_bits(*bits)),
        _ => None,
    }
}

#[test]
fn new_add() {
    for i in -100..100 {
        let i_f = i as f64;
        let add = TreeNode::new_addition(number_node(i_f), number_node(100.0 - i_f), get_test_token());
        if let TreeNode::Addition { left, right, .. } = add {
            let left_val = match left.as_ref() {
                TreeNode::NumericLiteral { val, .. } => match literal_as_f64(val) {
                    Some(num) => num,
                    None => {
                        assert_eq!(
                            true, false,
                            "\nNumeric literal set to {} instead of real number\n",
                            left.as_ref().get_type()
                        );
                        return;
                    },
                },
                _ => {
                    assert_eq!(
                        true, false,
                        "\nLeft branch of addition not a Numeric Literal, is {} instead.\n",
                        left.as_ref().get_type()
                    );
                    return;
                },
            };
            let right_val = match right.as_ref() {
                TreeNode::NumericLiteral { val, .. } => literal_as_f64(val).unwrap(),
                _ => {
                    assert_eq!(
                        true, false,
                        "\nRight branch of addition not a Numeric Literal, is {} instead.\n",
                        right.as_ref().get_type()
                    );
                    return;
                },
            };
            assert_eq!(
                left_val, i_f,
                "\nLeft side of addition should be {} but is {}!\n",
                i_f, left_val
            );
            assert_eq!(
                right_val,
                100.0 - i_f,
                "\nRight side of addition should be {} but is {}!\n",
                i_f,
                right_val
            );
            continue;
        }
        assert_eq!(
            true, false,
            "\nCreated node is not of type addition, found {} instead!\n",
            add.get_type()
        )
    }
}

#[test]
fn addition() {
    for i in -100..100 {
        let i_f = i as f64;
        let add = TreeNode::new_addition(number_node(i_f), number_node(100.0 - i_f), get_test_token());
        if let TreeNode::Addition { .. } = add {
            match &add.eval() {
                Ok(val) => match literal_as_f64(val) {
                    Some(num) => {
                        assert_eq!(
                            num, 100.0,
                            "\nAddition not following math correctly! Found {} when it should be 100.\n",
                            num
                        );
                    },
                    None => {
                        assert_eq!(
                            true, false,
                            "\nAddition value cannot be parsed to f64!\n"
                        );
                        return;
                    },
                },
                Err(_e) => {
                    assert_eq!(true, false, "\nFailed to evaluate addition\n.");
                    return;
                },
            };
            continue;
        }
        assert_eq!(
            true, false,
            "\nCreated node was not a addition node, found {} instead!\n",
            add.get_type()
        );
    }
}

#[test]
fn new_subtraction() {
    for i in -100..100 {
        let i_f = i as f64;
        let sub =
            TreeNode::new_subtraction(number_node(i_f), number_node(100.0 - i_f), get_test_token());
        if let TreeNode::Subtraction { left, right, .. } = sub {
            let left_val = match left.as_ref() {
                TreeNode::NumericLiteral { val, .. } => literal_as_f64(val).unwrap(),
                _ => {
                    assert_eq!(
                        true, false,
                        "\nLeft branch of subtraction not a Numeric Literal, is {} instead.\n",
                        left.as_ref().get_type()
                    );
                    return;
                },
            };
            let right_val = match right.as_ref() {
                TreeNode::NumericLiteral { val, .. } => literal_as_f64(val).unwrap(),
                _ => {
                    assert_eq!(
                        true, false,
                        "\nRight branch of subtraction not a Numeric Literal, is {} instead.\n",
                        right.as_ref().get_type()
                    );
                    return;
                },
            };
            assert_eq!(
                left_val, i_f,
                "\nLeft side of subtraction should be {} but is {}!\n",
                i_f, left_val
            );
            assert_eq!(
                right_val,
                100.0 - i_f,
                "\nRight side of subtraction should be {} but is {}!\n",
                i_f,
                right_val
            );
            continue;
        }
        assert_eq!(
            true, false,
            "\nCreated node was not a subtraction node, created {} instead!\n",
            sub.get_type()
        )
    }
}

#[test]
fn subtraction() {
    for i in -100..100 {
        let i_f = i as f64;
        let sub =
            TreeNode::new_subtraction(number_node(i_f), number_node(100.0 - i_f), get_test_token());
        if let TreeNode::Subtraction { .. } = sub {
            match &sub.eval() {
                Ok(val) => match literal_as_f64(val) {
                    Some(num) => {
                        assert_eq!(
                            num,
                            i_f - (100.0 - i_f),
                            "\nSubtraction not following math correctly! Found {} when it should be {}.",
                            num,
                            i_f - (100.0 - i_f)
                        );
                    },
                    None => {
                        assert_eq!(true, false, "Subtraction value cannot be parsed to f64!");
                        return;
                    },
                },
                Err(_e) => {
                    assert_eq!(true, false, "Failed to evaluate subtraction");
                    return;
                },
            };
            continue;
        }
        assert_eq!(
            true, false,
            "\nCreated node was not a subtraction node, found {} instead!\n",
            sub.get_type()
        )
    }
}

#[test]
fn new_multiplication() {
    for i in -100..100 {
        let i_f = i as f64;
        let mult =
            TreeNode::new_multiplication(number_node(i_f), number_node(100.0 - i_f), get_test_token());
        if let TreeNode::Multiplication { left, right, .. } = mult {
            let left_val = match left.as_ref() {
                TreeNode::NumericLiteral { val, .. } => literal_as_f64(val).unwrap(),
                _ => {
                    assert_eq!(
                        true, false,
                        "\nLeft branch of multiplication not a Numeric Literal, is {} instead.\n",
                        left.as_ref().get_type()
                    );
                    return;
                },
            };
            let right_val = match right.as_ref() {
                TreeNode::NumericLiteral { val, .. } => literal_as_f64(val).unwrap(),
                _ => {
                    assert_eq!(
                        true, false,
                        "\nRight branch of multiplication not a Numeric Literal, is {} instead.\n",
                        right.as_ref().get_type()
                    );
                    return;
                },
            };
            assert_eq!(
                left_val, i_f,
                "\nLeft side of multiplication should be {} but is {}!\n",
                i_f, left_val
            );
            assert_eq!(
                right_val,
                100.0 - i_f,
                "\nRight side of multiplication should be {} but is {}!\n",
                i_f,
                right_val
            );
            continue;
        }
        assert_eq!(
            true, false,
            "\nCreated node was not a multiplication node, created {} instead!\n",
            mult.get_type()
        )
    }
}

#[test]
fn multiplication() {
    for i in -100..100 {
        let i_f = i as f64;
        let mult =
            TreeNode::new_multiplication(number_node(i_f), number_node(100.0 - i_f), get_test_token());
        if let TreeNode::Multiplication { .. } = mult {
            match &mult.eval() {
                Ok(val) => match literal_as_f64(val) {
                    Some(num) => {
                        assert_eq!(
                            num,
                            i_f * (100.0 - i_f),
                            "\nMultiplication not following math correctly! Found {} when it should be {}.",
                            num,
                            i_f * (100.0 - i_f)
                        );
                    },
                    None => {
                        assert_eq!(true, false, "Multiplication value cannot be parsed to f64!");
                        return;
                    },
                },
                Err(_e) => {
                    assert_eq!(true, false, "Failed to evaluate multiplication");
                    return;
                },
            };
            continue;
        }
        assert_eq!(
            true, false,
            "\nCreated node was not a multiplication node, found {} instead!\n",
            mult.get_type()
        )
    }
}

#[test]
fn new_division() {
    for i in -100..99 {
        let i_f = i as f64;
        let div =
            TreeNode::new_division(number_node(i_f), number_node(100.0 - i_f), get_test_token());
        if let TreeNode::Division { left, right, .. } = div {
            let left_val = match left.as_ref() {
                TreeNode::NumericLiteral { val, .. } => literal_as_f64(val).unwrap(),
                _ => {
                    assert_eq!(
                        true, false,
                        "\nLeft branch of division not a Numeric Literal, is {} instead.\n",
                        left.as_ref().get_type()
                    );
                    return;
                },
            };
            let right_val = match right.as_ref() {
                TreeNode::NumericLiteral { val, .. } => literal_as_f64(val).unwrap(),
                _ => {
                    assert_eq!(
                        true, false,
                        "\nRight branch of division not a Numeric Literal, is {} instead.\n",
                        right.as_ref().get_type()
                    );
                    return;
                },
            };
            assert_eq!(
                left_val, i_f,
                "\nLeft side of division should be {} but is {}!\n",
                i_f, left_val
            );
            assert_eq!(
                right_val,
                100.0 - i_f,
                "\nRight side of division should be {} but is {}!\n",
                i_f,
                right_val
            );
            continue;
        }
        assert_eq!(
            true, false,
            "\nCreated node was not a division node, created {} instead!\n",
            div.get_type()
        )
    }
}

#[test]
fn division() {
    for i in -100..99 {
        let i_f = i as f64;
        let div =
            TreeNode::new_division(number_node(i_f), number_node(100.0 - i_f), get_test_token());
        if let TreeNode::Division { .. } = div {
            match &div.eval() {
                Ok(val) => match literal_as_f64(val) {
                    Some(num) => {
                        assert_eq!(
                            num,
                            i_f / (100.0 - i_f),
                            "\nDivision not following math correctly! Found {} when it should be {}.",
                            num,
                            i_f / (100.0 - i_f)
                        );
                    },
                    None => {
                        assert_eq!(true, false, "Division value cannot be parsed to f64!");
                        return;
                    },
                },
                Err(_e) => {
                    assert_eq!(true, false, "Failed to evaluate division");
                    return;
                },
            };
            continue;
        }
        assert_eq!(
            true, false,
            "\nCreated node was not a division node, found {} instead!\n",
            div.get_type()
        )
    }
}

#[test]
fn cant_divide_by_zero() {
    let div = TreeNode::new_division(number_node(10.0), number_node(0.0), get_test_token());
    match &div.eval() {
        Ok(val) => assert_eq!(
            true,
            false,
            "Allowed division by zero!\n Val: {:?}",
            literal_as_f64(val)
        ),
        Err(_) => assert_eq!(true, true),
    }
}

#[test]
fn communitive_property() {
    for i in 0..100 {
        let i_f = i as f64;
        let val1 = rand::random::<f64>() * 10.0 * i_f;
        let val2 = rand::random::<f64>() * 10.0 * i_f;
        let mult1 = TreeNode::new_multiplication(number_node(val1), number_node(val2), get_test_token());
        let mult2 = TreeNode::new_multiplication(number_node(val2), number_node(val1), get_test_token());
        if let (Ok(product1), Ok(product2)) = (mult1.eval(), mult2.eval()) {
            let p1 = literal_as_f64(&product1).unwrap();
            let p2 = literal_as_f64(&product2).unwrap();
            assert_eq!(
                p1, p2,
                "Error, communitive property not correct on Multiplication."
            );
        } else {
            assert_eq!(
                true, false,
                "Cannot evaluate multiplaction for communitive property"
            );
        }
    }
}
