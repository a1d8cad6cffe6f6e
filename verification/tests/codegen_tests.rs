use maga::generation::builder::{Builder, Instruction};
use maga::generation::expressions::{CodeGenExpr, ExpressionCodeGen};
use maga::generation::function::generate_function;
use maga::generation::statements::StatementCodeGen;
use maga::generation::type_registry::{BackendType, ScalarType, TypeRegistry};
use maga::generation::{CodeGenContext, CodeGenError, Context};
use maga::lexer::{Token, Tokens};
use maga::parser::expression::{
    BinaryExpression, ConstantExpression, ConstantExpressionValue, Expression, Operator,
    UnaryExpression, VariableExpression,
};
use maga::parser::function::{Function, FunctionParam};
use maga::parser::statement::{ReturnStatement, Statement};
use maga::parser::types::Type;
use maga::parser::Parser;

fn ident_token(name: &str) -> Token {
    Token::Identifier(name.to_string())
}

fn plain_type(name: &str) -> Type {
    Type { name: name.to_string(), is_pointer: false }
}

fn uint_const(v: u64) -> Expression {
    Expression::Constant(ConstantExpression { value: ConstantExpressionValue::UInt(v) })
}

fn variable(name: &str) -> Expression {
    Expression::Variable(VariableExpression { name: name.to_string() })
}

fn binary(op: Operator, lhs: Expression, rhs: Expression) -> Expression {
    Expression::Binary(BinaryExpression { operator: op, lhs: Box::new(lhs), rhs: Box::new(rhs) })
}

#[test]
fn pointer_type_resolves_word_sized_and_distinct() {
    let context = Context::new().unwrap();
    let registry = TypeRegistry::new(&context);

    let base = registry.get(&plain_type("i32")).unwrap();
    assert_eq!(base.name, "i32");
    assert_eq!(base.size, 32);
    assert_eq!(base.type_ref, BackendType::Scalar(ScalarType::Integer { bits: 32 }));

    let pointer = registry
        .get(&Type { name: "i32".to_string(), is_pointer: true })
        .unwrap();
    assert_eq!(pointer.name, "i32");
    assert_eq!(pointer.size, 64);
    assert_eq!(pointer.type_ref, BackendType::Pointer(ScalarType::Integer { bits: 32 }));

    assert!(!base.same_type(&pointer));
}

#[test]
fn registry_seeds_the_fixed_scalars() {
    let context = Context::new().unwrap();
    let registry = TypeRegistry::new(&context);

    let u8_def = registry.get(&plain_type("u8")).unwrap();
    assert_eq!(u8_def.size, 8);
    assert_eq!(u8_def.type_ref, BackendType::Scalar(ScalarType::Integer { bits: 8 }));

    let void_def = registry.get(&plain_type("()")).unwrap();
    assert_eq!(void_def.size, 0);
    assert_eq!(void_def.type_ref, BackendType::Scalar(ScalarType::Void));

    let bool_def = registry.get(&plain_type("bool")).unwrap();
    assert_eq!(bool_def.size, 8);
    assert_eq!(bool_def.type_ref, BackendType::Scalar(ScalarType::Integer { bits: 8 }));

    let f64_def = registry.get(&plain_type("f64")).unwrap();
    assert_eq!(f64_def.size, 64);
    assert_eq!(f64_def.type_ref, BackendType::Scalar(ScalarType::Float { bits: 64 }));

    assert!(registry.get(&plain_type("string")).is_none());
}

#[test]
fn constants_are_generated_as_i64() {
    let ctx = CodeGenContext::new().unwrap();
    let mut builder = Builder::new();

    let e = uint_const(7);
    let value = e.generate(&ctx, &mut builder).unwrap();
    assert_eq!(value.val, 0);
    assert_eq!(value.ty.name, "i64");
    assert_eq!(value.ty.size, 64);
    assert_eq!(
        builder.instructions(),
        &vec![Instruction::ConstInt { dest: 0, literal: ConstantExpressionValue::UInt(7) }]
    );
}

#[test]
fn unknown_variable_fails_with_its_name() {
    let ctx = CodeGenContext::new().unwrap();
    let mut builder = Builder::new();

    let e = variable("x");
    match e.generate(&ctx, &mut builder) {
        Err(CodeGenError::InvalidVariable(name)) => assert_eq!(name, "x"),
        other => panic!("expected an invalid-variable error, found {:?}", other),
    }
}

#[test]
fn adding_two_literals_succeeds_typed_i64() {
    let ctx = CodeGenContext::new().unwrap();
    let mut builder = Builder::new();

    let e = binary(Operator::Add, uint_const(1), uint_const(1));
    let value = e.generate(&ctx, &mut builder).unwrap();
    assert_eq!(value.val, 2);
    assert_eq!(value.ty.name, "i64");
    assert_eq!(
        builder.instructions(),
        &vec![
            Instruction::ConstInt { dest: 0, literal: ConstantExpressionValue::UInt(1) },
            Instruction::ConstInt { dest: 1, literal: ConstantExpressionValue::UInt(1) },
            Instruction::Add { dest: 2, lhs: 0, rhs: 1 },
        ]
    );
}

#[test]
fn operands_of_different_types_fail_with_both_types() {
    let mut ctx = CodeGenContext::new().unwrap();
    let mut builder = Builder::new();

    let u32_def = ctx.type_registry.get(&plain_type("u32")).unwrap();
    let i64_def = ctx.type_registry.get(&plain_type("i64")).unwrap();
    ctx.variables.insert("x".to_string(), CodeGenExpr { val: 0, ty: u32_def });
    ctx.variables.insert("y".to_string(), CodeGenExpr { val: 1, ty: i64_def });

    let e = binary(Operator::Add, variable("x"), variable("y"));
    match e.generate(&ctx, &mut builder) {
        Err(CodeGenError::TypesNotEqual(a, b)) => {
            assert_eq!(a.name, "u32");
            assert_eq!(a.size, 32);
            assert_eq!(b.name, "i64");
            assert_eq!(b.size, 64);
        }
        other => panic!("expected a type mismatch, found {:?}", other),
    }
}

#[test]
fn division_has_no_mapping_yet() {
    let ctx = CodeGenContext::new().unwrap();
    let mut builder = Builder::new();

    let e = binary(Operator::Div, uint_const(4), uint_const(2));
    assert!(matches!(
        e.generate(&ctx, &mut builder),
        Err(CodeGenError::UnsupportedOperator)
    ));
}

#[test]
fn unary_and_call_generation_fail_fast() {
    let ctx = CodeGenContext::new().unwrap();
    let mut builder = Builder::new();

    let unary = Expression::Unary(UnaryExpression {
        operator: Operator::Sub,
        lhs: Box::new(uint_const(1)),
    });
    assert!(matches!(
        unary.generate(&ctx, &mut builder),
        Err(CodeGenError::UnsupportedOperator)
    ));

    let call = Expression::Call(maga::parser::expression::CallExpression {
        name: "f".to_string(),
        args: vec![],
    });
    assert!(matches!(
        call.generate(&ctx, &mut builder),
        Err(CodeGenError::UnsupportedOperator)
    ));
}

#[test]
fn less_operator_emits_signed_less_or_equal() {
    let ctx = CodeGenContext::new().unwrap();
    let mut builder = Builder::new();

    let e = binary(Operator::Less, uint_const(1), uint_const(2));
    let value = e.generate(&ctx, &mut builder).unwrap();
    assert_eq!(value.ty.name, "i64");
    assert_eq!(
        builder.instructions()[2],
        Instruction::CmpSignedLessEqual { dest: 2, lhs: 0, rhs: 1 }
    );
}

#[test]
fn unknown_parameter_type_fails_naming_it() {
    let mut context = Context::new().unwrap();
    let registry = TypeRegistry::new(&context);
    let mut module = context.create_module("m").unwrap();

    let f = Function {
        name: "f".to_string(),
        return_type: Type::void(),
        params: vec![FunctionParam { name: "a".to_string(), ty: plain_type("bogus") }],
        body: None,
    };
    match generate_function(&context, &registry, &mut module, &f) {
        Err(CodeGenError::InvalidType(name)) => assert_eq!(name, "bogus"),
        other => panic!("expected an invalid-type error, found {:?}", other),
    }
    assert_eq!(module.functions.len(), 0);
}

#[test]
fn unknown_return_type_fails_naming_it() {
    let mut context = Context::new().unwrap();
    let registry = TypeRegistry::new(&context);
    let mut module = context.create_module("m").unwrap();

    let f = Function {
        name: "f".to_string(),
        return_type: plain_type("nope"),
        params: vec![],
        body: None,
    };
    match generate_function(&context, &registry, &mut module, &f) {
        Err(CodeGenError::InvalidType(name)) => assert_eq!(name, "nope"),
        other => panic!("expected an invalid-type error, found {:?}", other),
    }
}

#[test]
fn function_declaration_registers_resolved_types() {
    let mut context = Context::new().unwrap();
    let registry = TypeRegistry::new(&context);
    let mut module = context.create_module("m").unwrap();

    let f = Function {
        name: "f".to_string(),
        return_type: plain_type("u8"),
        params: vec![
            FunctionParam { name: "a".to_string(), ty: plain_type("i32") },
            FunctionParam { name: "p".to_string(), ty: Type { name: "i64".to_string(), is_pointer: true } },
        ],
        body: None,
    };
    generate_function(&context, &registry, &mut module, &f).unwrap();

    assert_eq!(module.functions.len(), 1);
    let declared = &module.functions[0];
    assert_eq!(declared.name, "f");
    assert_eq!(
        declared.fn_type.params,
        vec![
            BackendType::Scalar(ScalarType::Integer { bits: 32 }),
            BackendType::Pointer(ScalarType::Integer { bits: 64 }),
        ]
    );
    assert_eq!(declared.fn_type.ret, BackendType::Scalar(ScalarType::Integer { bits: 8 }));
}

#[test]
fn generate_declares_every_parsed_function() {
    let mut tokens = Tokens::new(vec![
        Token::Fun,
        ident_token("main"),
        Token::LParen,
        Token::RParen,
        Token::LBrace,
        Token::RBrace,
        Token::Fun,
        ident_token("helper"),
        Token::LParen,
        ident_token("a"),
        Token::DoubleColon,
        ident_token("i64"),
        Token::RParen,
        Token::DoubleColon,
        ident_token("i64"),
    ]);
    let parser = Parser::new(&mut tokens).unwrap();

    let mut ctx = CodeGenContext::new().unwrap();
    let mut module = ctx.context_mut().create_module("example").unwrap();
    ctx.generate(&mut module, &parser).unwrap();

    assert_eq!(module.name, "example");
    assert_eq!(module.functions.len(), 2);
    assert_eq!(module.functions[0].name, "main");
    assert_eq!(module.functions[0].fn_type.params.len(), 0);
    assert_eq!(module.functions[0].fn_type.ret, BackendType::Scalar(ScalarType::Void));
    assert_eq!(module.functions[1].name, "helper");
    assert_eq!(
        module.functions[1].fn_type.params,
        vec![BackendType::Scalar(ScalarType::Integer { bits: 64 })]
    );
}

#[test]
fn generate_fails_on_unknown_type_in_source() {
    let mut tokens = Tokens::new(vec![
        Token::Fun,
        ident_token("f"),
        Token::LParen,
        ident_token("a"),
        Token::DoubleColon,
        ident_token("mystery"),
        Token::RParen,
        Token::LBrace,
        Token::RBrace,
    ]);
    let parser = Parser::new(&mut tokens).unwrap();

    let mut ctx = CodeGenContext::new().unwrap();
    let mut module = ctx.context_mut().create_module("m").unwrap();
    match ctx.generate(&mut module, &parser) {
        Err(CodeGenError::InvalidType(name)) => assert_eq!(name, "mystery"),
        other => panic!("expected an invalid-type error, found {:?}", other),
    }
}

#[test]
fn return_statements_lower_to_return_instructions() {
    let mut ctx = CodeGenContext::new().unwrap();
    let mut builder = Builder::new();

    let ret_value = Statement::Return(ReturnStatement { expression: Some(uint_const(3)) });
    ret_value.generate(&mut ctx, &mut builder).unwrap();
    assert_eq!(
        builder.instructions(),
        &vec![
            Instruction::ConstInt { dest: 0, literal: ConstantExpressionValue::UInt(3) },
            Instruction::Return { value: 0 },
        ]
    );

    let ret_void = Statement::Return(ReturnStatement { expression: None });
    ret_void.generate(&mut ctx, &mut builder).unwrap();
    assert_eq!(builder.instructions()[2], Instruction::ReturnVoid);
}

#[test]
fn declarations_bind_the_generated_value() {
    let mut ctx = CodeGenContext::new().unwrap();
    let mut builder = Builder::new();

    let decl = Statement::Declaration(maga::parser::assignment::AssignmentStatement {
        mutable: false,
        ident: "x".to_string(),
        rhs: uint_const(9),
    });
    decl.generate(&mut ctx, &mut builder).unwrap();

    let bound = ctx.variables.get(&"x".to_string()).unwrap();
    assert_eq!(bound.val, 0);
    assert_eq!(bound.ty.name, "i64");

    // The bound value now resolves as a variable reference, unchanged.
    let e = variable("x");
    let value = e.generate(&ctx, &mut builder).unwrap();
    assert_eq!(value.val, 0);
    assert_eq!(value.ty.name, "i64");
    // No new instruction was emitted for the reference.
    assert_eq!(builder.instructions().len(), 1);
}

#[test]
fn later_binding_overwrites_the_earlier_one() {
    let mut ctx = CodeGenContext::new().unwrap();

    let i64_def = ctx.type_registry.get(&plain_type("i64")).unwrap();
    let u8_def = ctx.type_registry.get(&plain_type("u8")).unwrap();
    ctx.variables.insert("x".to_string(), CodeGenExpr { val: 0, ty: i64_def });
    ctx.variables.insert("x".to_string(), CodeGenExpr { val: 5, ty: u8_def });

    let bound = ctx.variables.get(&"x".to_string()).unwrap();
    assert_eq!(bound.val, 5);
    assert_eq!(bound.ty.name, "u8");
}
