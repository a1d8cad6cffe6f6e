use maga::lexer::{Token, Tokens};
use maga::parser::expression::{
    get_token_precedence, ConstantExpressionValue, Expression, Operator,
};
use maga::parser::statement::Statement;
use maga::parser::types::Type;
use maga::parser::{Element, FromTokenStream, Parser};

fn ident(name: &str) -> Token {
    Token::Identifier(name.to_string())
}

#[test]
fn empty_function_parses_to_void_function() {
    let mut tokens = Tokens::new(vec![
        Token::Fun,
        ident("f"),
        Token::LParen,
        Token::RParen,
        Token::LBrace,
        Token::RBrace,
    ]);
    let parser = Parser::new(&mut tokens).unwrap();
    let root = parser.root();
    assert_eq!(root.0.len(), 1);
    match &root.0[0] {
        Element::Function(f) => {
            assert_eq!(f.name, "f");
            assert_eq!(f.return_type.name, "()");
            assert!(!f.return_type.is_pointer);
            assert_eq!(f.params.len(), 0);
            let body = f.body.as_ref().unwrap();
            assert_eq!(body.elements.len(), 0);
        }
        other => panic!("expected a function, found {:?}", other),
    }
}

#[test]
fn parameter_list_preserves_order_and_pairs() {
    let mut tokens = Tokens::new(vec![
        Token::Fun,
        ident("f"),
        Token::LParen,
        ident("a"),
        Token::DoubleColon,
        ident("i32"),
        Token::Comma,
        ident("b"),
        Token::DoubleColon,
        ident("u8"),
        Token::Comma,
        ident("p"),
        Token::DoubleColon,
        Token::Mul,
        ident("i64"),
        Token::RParen,
        Token::LBrace,
        Token::RBrace,
    ]);
    let parser = Parser::new(&mut tokens).unwrap();
    match &parser.root().0[0] {
        Element::Function(f) => {
            assert_eq!(f.params.len(), 3);
            assert_eq!(f.params[0].name, "a");
            assert_eq!(f.params[0].ty.name, "i32");
            assert!(!f.params[0].ty.is_pointer);
            assert_eq!(f.params[1].name, "b");
            assert_eq!(f.params[1].ty.name, "u8");
            assert!(!f.params[1].ty.is_pointer);
            assert_eq!(f.params[2].name, "p");
            assert_eq!(f.params[2].ty.name, "i64");
            assert!(f.params[2].ty.is_pointer);
        }
        other => panic!("expected a function, found {:?}", other),
    }
}

#[test]
fn multiplication_binds_tighter_than_subtraction() {
    let mut tokens = Tokens::new(vec![
        ident("a"),
        Token::Sub,
        ident("b"),
        Token::Mul,
        ident("c"),
    ]);
    let e = Expression::parse(&mut tokens).unwrap();
    match e {
        Expression::Binary(outer) => {
            assert_eq!(outer.operator, Operator::Sub);
            match (*outer.lhs, *outer.rhs) {
                (Expression::Variable(l), Expression::Binary(inner)) => {
                    assert_eq!(l.name, "a");
                    assert_eq!(inner.operator, Operator::Mul);
                    match (*inner.lhs, *inner.rhs) {
                        (Expression::Variable(bl), Expression::Variable(br)) => {
                            assert_eq!(bl.name, "b");
                            assert_eq!(br.name, "c");
                        }
                        other => panic!("expected two variables, found {:?}", other),
                    }
                }
                other => panic!("expected variable minus product, found {:?}", other),
            }
        }
        other => panic!("expected a binary expression, found {:?}", other),
    }
}

#[test]
fn parentheses_group_the_looser_operator() {
    let mut tokens = Tokens::new(vec![
        Token::LParen,
        ident("a"),
        Token::Add,
        ident("b"),
        Token::RParen,
        Token::Mul,
        ident("c"),
    ]);
    let e = Expression::parse(&mut tokens).unwrap();
    match e {
        Expression::Binary(outer) => {
            assert_eq!(outer.operator, Operator::Mul);
            match (*outer.lhs, *outer.rhs) {
                (Expression::Binary(inner), Expression::Variable(r)) => {
                    assert_eq!(inner.operator, Operator::Add);
                    assert_eq!(r.name, "c");
                    match (*inner.lhs, *inner.rhs) {
                        (Expression::Variable(al), Expression::Variable(ar)) => {
                            assert_eq!(al.name, "a");
                            assert_eq!(ar.name, "b");
                        }
                        other => panic!("expected two variables, found {:?}", other),
                    }
                }
                other => panic!("expected sum times variable, found {:?}", other),
            }
        }
        other => panic!("expected a binary expression, found {:?}", other),
    }
}

#[test]
fn reparsing_the_same_tokens_yields_identical_trees() {
    let source = vec![
        Token::Fun,
        ident("f"),
        Token::LParen,
        ident("a"),
        Token::DoubleColon,
        ident("i64"),
        Token::RParen,
        Token::LBrace,
        Token::Let,
        ident("x"),
        Token::Assign,
        Token::UIntLiteral(1),
        Token::Add,
        ident("a"),
        Token::Semicolon,
        Token::Return,
        ident("x"),
        Token::Semicolon,
        Token::RBrace,
    ];
    let mut t1 = Tokens::new(source.clone());
    let mut t2 = Tokens::new(source);
    let p1 = Parser::new(&mut t1).unwrap();
    let p2 = Parser::new(&mut t2).unwrap();
    assert_eq!(format!("{:?}", p1.root()), format!("{:?}", p2.root()));
}

#[test]
fn bare_identifier_parses_as_variable() {
    let mut tokens = Tokens::new(vec![ident("foo")]);
    let e = Expression::parse(&mut tokens).unwrap();
    match e {
        Expression::Variable(v) => assert_eq!(v.name, "foo"),
        other => panic!("expected a variable, found {:?}", other),
    }
}

#[test]
fn identifier_with_parens_parses_as_empty_call() {
    let mut tokens = Tokens::new(vec![ident("foo"), Token::LParen, Token::RParen]);
    let e = Expression::parse(&mut tokens).unwrap();
    match e {
        Expression::Call(c) => {
            assert_eq!(c.name, "foo");
            assert_eq!(c.args.len(), 0);
        }
        other => panic!("expected a call, found {:?}", other),
    }
}

#[test]
fn call_arguments_parse_in_order() {
    let mut tokens = Tokens::new(vec![
        ident("foo"),
        Token::LParen,
        Token::UIntLiteral(1),
        Token::Comma,
        Token::UIntLiteral(2),
        Token::RParen,
    ]);
    let e = Expression::parse(&mut tokens).unwrap();
    match e {
        Expression::Call(c) => {
            assert_eq!(c.name, "foo");
            assert_eq!(c.args.len(), 2);
            match (&c.args[0], &c.args[1]) {
                (Expression::Constant(a), Expression::Constant(b)) => {
                    assert_eq!(a.value, ConstantExpressionValue::UInt(1));
                    assert_eq!(b.value, ConstantExpressionValue::UInt(2));
                }
                other => panic!("expected two constants, found {:?}", other),
            }
        }
        other => panic!("expected a call, found {:?}", other),
    }
}

#[test]
fn call_without_comma_between_arguments_fails() {
    let mut tokens = Tokens::new(vec![
        ident("foo"),
        Token::LParen,
        Token::UIntLiteral(1),
        Token::UIntLiteral(2),
        Token::RParen,
    ]);
    assert!(Expression::parse(&mut tokens).is_err());
}

#[test]
fn unexpected_top_level_token_is_an_error() {
    let mut tokens = Tokens::new(vec![Token::Semicolon]);
    assert!(Parser::new(&mut tokens).is_err());
}

#[test]
fn empty_token_stream_parses_to_empty_source_file() {
    let mut tokens = Tokens::new(vec![]);
    let parser = Parser::new(&mut tokens).unwrap();
    assert_eq!(parser.root().0.len(), 0);
}

#[test]
fn pointer_type_parses_with_marker() {
    let mut tokens = Tokens::new(vec![Token::Mul, ident("i32")]);
    let t = Type::from_token_stream(&mut tokens).unwrap();
    assert_eq!(t.name, "i32");
    assert!(t.is_pointer);

    let mut tokens = Tokens::new(vec![ident("u8")]);
    let t = Type::from_token_stream(&mut tokens).unwrap();
    assert_eq!(t.name, "u8");
    assert!(!t.is_pointer);

    let mut tokens = Tokens::new(vec![Token::Comma]);
    assert!(Type::from_token_stream(&mut tokens).is_err());
}

#[test]
fn void_sentinel_type() {
    let t = Type::void();
    assert_eq!(t.name, "()");
    assert!(!t.is_pointer);
}

#[test]
fn forward_declaration_has_no_body() {
    let mut tokens = Tokens::new(vec![
        Token::Fun,
        ident("f"),
        Token::LParen,
        Token::RParen,
        Token::DoubleColon,
        ident("i32"),
    ]);
    let parser = Parser::new(&mut tokens).unwrap();
    match &parser.root().0[0] {
        Element::Function(f) => {
            assert_eq!(f.return_type.name, "i32");
            assert!(f.body.is_none());
        }
        other => panic!("expected a function, found {:?}", other),
    }
}

#[test]
fn return_statement_with_and_without_expression() {
    let mut tokens = Tokens::new(vec![Token::Return, Token::UIntLiteral(1), Token::Semicolon]);
    match Statement::from_token_stream(&mut tokens).unwrap() {
        Statement::Return(r) => match r.expression.unwrap() {
            Expression::Constant(c) => assert_eq!(c.value, ConstantExpressionValue::UInt(1)),
            other => panic!("expected a constant, found {:?}", other),
        },
        other => panic!("expected a return, found {:?}", other),
    }

    let mut tokens = Tokens::new(vec![Token::Return, Token::Semicolon]);
    match Statement::from_token_stream(&mut tokens).unwrap() {
        Statement::Return(r) => assert!(r.expression.is_none()),
        other => panic!("expected a return, found {:?}", other),
    }
}

#[test]
fn let_and_var_declarations() {
    let mut tokens = Tokens::new(vec![
        Token::Let,
        ident("x"),
        Token::Assign,
        Token::UIntLiteral(5),
        Token::Semicolon,
    ]);
    match Statement::from_token_stream(&mut tokens).unwrap() {
        Statement::Declaration(d) => {
            assert!(!d.mutable);
            assert_eq!(d.ident, "x");
        }
        other => panic!("expected a declaration, found {:?}", other),
    }

    let mut tokens = Tokens::new(vec![
        Token::Var,
        ident("y"),
        Token::Assign,
        Token::IntLiteral(-3),
        Token::Semicolon,
    ]);
    match Statement::from_token_stream(&mut tokens).unwrap() {
        Statement::Declaration(d) => {
            assert!(d.mutable);
            assert_eq!(d.ident, "y");
            match d.rhs {
                Expression::Constant(c) => {
                    assert_eq!(c.value, ConstantExpressionValue::Int(-3))
                }
                other => panic!("expected a constant, found {:?}", other),
            }
        }
        other => panic!("expected a declaration, found {:?}", other),
    }
}

#[test]
fn statement_on_unexpected_token_fails() {
    let mut tokens = Tokens::new(vec![Token::Comma]);
    assert!(Statement::from_token_stream(&mut tokens).is_err());
}

#[test]
fn expression_parse_on_empty_stream_fails() {
    let mut tokens = Tokens::new(vec![]);
    assert!(Expression::parse(&mut tokens).is_err());
}

#[test]
fn expression_stops_at_semicolon() {
    let mut tokens = Tokens::new(vec![
        ident("a"),
        Token::Add,
        ident("b"),
        Token::Semicolon,
        ident("c"),
    ]);
    let e = Expression::parse(&mut tokens).unwrap();
    assert!(matches!(e, Expression::Binary(_)));
    assert!(tokens.has_more());
    assert!(matches!(tokens.peek(), Token::Semicolon));
}

#[test]
fn operator_from_token_maps_operators_only() {
    assert_eq!(Operator::from_token(&Token::Add).unwrap(), Operator::Add);
    assert_eq!(Operator::from_token(&Token::SubAssign).unwrap(), Operator::SubAssign);
    assert_eq!(Operator::from_token(&Token::GreaterEqual).unwrap(), Operator::GreaterEqual);
    assert!(Operator::from_token(&Token::Semicolon).is_err());
    assert!(Operator::from_token(&ident("x")).is_err());
}

#[test]
fn token_precedence_table() {
    assert_eq!(get_token_precedence(&Token::Less), 10);
    assert_eq!(get_token_precedence(&Token::LessEqual), 10);
    assert_eq!(get_token_precedence(&Token::Greater), 10);
    assert_eq!(get_token_precedence(&Token::GreaterEqual), 10);
    assert_eq!(get_token_precedence(&Token::Add), 20);
    assert_eq!(get_token_precedence(&Token::Sub), 30);
    assert_eq!(get_token_precedence(&Token::Mul), 40);
    assert_eq!(get_token_precedence(&Token::Div), 40);
    assert_eq!(get_token_precedence(&Token::Mod), 40);
    assert_eq!(get_token_precedence(&Token::AddAssign), -1);
    assert_eq!(get_token_precedence(&Token::Semicolon), -1);
    assert_eq!(get_token_precedence(&ident("x")), -1);
}

#[test]
fn token_cursor_operations() {
    let mut tokens = Tokens::new(vec![ident("a"), Token::Comma, ident("b")]);
    assert_eq!(tokens.tokens().len(), 3);
    assert!(tokens.has_more());
    assert!(matches!(tokens.peek(), Token::Identifier(_)));
    assert!(matches!(tokens.get_peek(), Some(Token::Identifier(_))));
    assert_eq!(tokens.get().as_ident().unwrap(), "a");
    assert!(tokens.try_peek().unwrap().as_comma().is_ok());
    tokens.add_pos(1);
    assert_eq!(tokens.get().as_ident().unwrap(), "b");
    assert!(!tokens.has_more());
    assert!(tokens.get_peek().is_none());
    assert!(tokens.try_peek().is_err());
}

#[test]
fn token_expectation_helpers() {
    assert!(Token::LParen.as_lparen().is_ok());
    assert!(Token::RParen.as_rparen().is_ok());
    assert!(Token::LBrace.as_lbrace().is_ok());
    assert!(Token::RBrace.as_rbrace().is_ok());
    assert!(Token::DoubleColon.as_double_colon().is_ok());
    assert!(Token::Comma.as_comma().is_ok());
    assert!(Token::Assign.as_assign().is_ok());
    assert!(Token::Semicolon.as_semicolon().is_ok());
    assert!(Token::Return.as_return().is_ok());
    assert!(Token::Comma.as_lparen().is_err());
    assert!(ident("x").as_semicolon().is_err());
    assert!(Token::LParen.as_ident().is_err());
}

#[test]
fn trailing_comma_in_parameter_list_is_accepted() {
    let mut tokens = Tokens::new(vec![
        Token::Fun,
        ident("f"),
        Token::LParen,
        ident("a"),
        Token::DoubleColon,
        ident("i32"),
        Token::Comma,
        Token::RParen,
        Token::LBrace,
        Token::RBrace,
    ]);
    let parser = Parser::new(&mut tokens).unwrap();
    match &parser.root().0[0] {
        Element::Function(f) => {
            assert_eq!(f.params.len(), 1);
            assert_eq!(f.params[0].name, "a");
        }
        other => panic!("expected a function, found {:?}", other),
    }
}

#[test]
fn subtraction_ranks_above_addition_in_the_table() {
    // The table deliberately ranks subtraction (30) above addition (20),
    // so the subtraction binds tighter on the right.
    let mut tokens = Tokens::new(vec![
        ident("a"),
        Token::Add,
        ident("b"),
        Token::Sub,
        ident("c"),
    ]);
    let e = Expression::parse(&mut tokens).unwrap();
    match e {
        Expression::Binary(outer) => {
            assert_eq!(outer.operator, Operator::Add);
            match (*outer.lhs, *outer.rhs) {
                (Expression::Variable(l), Expression::Binary(inner)) => {
                    assert_eq!(l.name, "a");
                    assert_eq!(inner.operator, Operator::Sub);
                }
                other => panic!("expected variable plus difference, found {:?}", other),
            }
        }
        other => panic!("expected a binary expression, found {:?}", other),
    }
}

#[test]
fn unterminated_scope_is_an_error() {
    let mut tokens = Tokens::new(vec![
        Token::Fun,
        ident("f"),
        Token::LParen,
        Token::RParen,
        Token::LBrace,
    ]);
    assert!(Parser::new(&mut tokens).is_err());
}
