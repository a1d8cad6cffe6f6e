use crate::generation::builder::{Builder, Instruction};
use crate::generation::type_registry::{spec_registry_get, SpecTypeDef, TypeDef};
use crate::generation::{CodeGenContext, CodeGenError, SpecCodeGenError};
use crate::parser::expression::{Expression, SpecExpression};
use crate::parser::types::SpecType;
use vstd::prelude::*;

pub mod binary;
pub mod constant;
pub mod variable;

verus! {

/// A generated value: the backend value handle and the resolved type it
/// carries. It lives only as long as the statement that produced it, unless
/// a declaration binds it to a name.
#[derive(Debug)]
pub struct CodeGenExpr {
    pub val: usize,
    pub ty: TypeDef,
}

/// Mathematical form of a generated value.
pub struct SpecCodeGenExpr {
    pub val: usize,
    pub ty: SpecTypeDef,
}

impl View for CodeGenExpr {
    type V = SpecCodeGenExpr;

    open spec fn view(&self) -> SpecCodeGenExpr {
        SpecCodeGenExpr { val: self.val, ty: self.ty@ }
    }
}

impl CodeGenExpr {
    /// A field-for-field copy of this generated value.
    pub fn duplicate(&self) -> (r: CodeGenExpr)
        ensures
            r@ == self@,
    {
        CodeGenExpr { val: self.val, ty: self.ty.duplicate() }
    }
}

/// What generating code for an expression means, under variable bindings
/// `variables` and type registry `types`, with `instrs` already emitted:
/// either the generated value and the instructions after emission, or the
/// error that aborts the unit.
///
/// - An integer literal is materialized as a 64-bit constant typed `i64`,
///   regardless of its apparent width or signedness.
/// - A variable reference yields the bound value unchanged, or fails naming
///   the identifier when it is unbound.
/// - A binary expression generates its operands left before right, requires
///   their resolved types to be identical, and emits the instruction of its
///   operator, the result carrying the operand type forward. The `Less`
///   operator is paired with the backend's signed less-or-equal comparison.
///   Operators outside {addition, subtraction, multiplication, `Less`} are
///   unsupported.
/// - Unary and call expressions are not lowered yet; they fail fast rather
///   than silently passing through.
pub open spec fn spec_generate_expr(
    e: SpecExpression,
    variables: Map<Seq<char>, SpecCodeGenExpr>,
    types: Map<Seq<char>, SpecTypeDef>,
    instrs: Seq<Instruction>,
) -> Result<(SpecCodeGenExpr, Seq<Instruction>), SpecCodeGenError>
    decreases e,
{
    match e {
        SpecExpression::Constant(v) => {
            match spec_registry_get(types, SpecType { name: "i64"@, is_pointer: false }) {
                None => Err(SpecCodeGenError::InvalidType("i64"@)),
                Some(ty) => Ok(
                    (
                        SpecCodeGenExpr { val: instrs.len() as usize, ty },
                        instrs.push(
                            Instruction::ConstInt { dest: instrs.len() as usize, literal: v },
                        ),
                    ),
                ),
            }
        },
        SpecExpression::Variable(name) => {
            if variables.contains_key(name) {
                Ok((variables[name], instrs))
            } else {
                Err(SpecCodeGenError::InvalidVariable(name))
            }
        },
        SpecExpression::Binary(op, lhs, rhs) => {
            match spec_generate_expr(*lhs, variables, types, instrs) {
                Err(e) => Err(e),
                Ok((le, instrs1)) => match spec_generate_expr(*rhs, variables, types, instrs1) {
                    Err(e) => Err(e),
                    Ok((re, instrs2)) => {
                        if le.ty != re.ty {
                            Err(SpecCodeGenError::TypesNotEqual(le.ty, re.ty))
                        } else {
                            match spec_binary_instruction(op, le.val, re.val, instrs2.len() as usize) {
                                None => Err(SpecCodeGenError::UnsupportedOperator),
                                Some(instruction) => Ok(
                                    (
                                        SpecCodeGenExpr {
                                            val: instrs2.len() as usize,
                                            ty: le.ty,
                                        },
                                        instrs2.push(instruction),
                                    ),
                                ),
                            }
                        }
                    },
                },
            }
        },
        SpecExpression::Unary(_, _) => Err(SpecCodeGenError::UnsupportedOperator),
        SpecExpression::Call(_, _) => Err(SpecCodeGenError::UnsupportedOperator),
    }
}

/// The backend instruction a supported binary operator maps to, or nothing
/// for an operator with no code-generation mapping.
pub open spec fn spec_binary_instruction(
    op: crate::parser::expression::Operator,
    lhs: usize,
    rhs: usize,
    dest: usize,
) -> Option<Instruction> {
    match op {
        crate::parser::expression::Operator::Add => Some(Instruction::Add { dest, lhs, rhs }),
        crate::parser::expression::Operator::Sub => Some(Instruction::Sub { dest, lhs, rhs }),
        crate::parser::expression::Operator::Mul => Some(Instruction::Mul { dest, lhs, rhs }),
        crate::parser::expression::Operator::Less => Some(
            Instruction::CmpSignedLessEqual { dest, lhs, rhs },
        ),
        _ => None,
    }
}

/// Code generation for one expression form, against the active context and
/// the instruction sink. The contract is uniform: success yields exactly
/// the value and emitted instructions of `spec_generate_expr` on the node's
/// mathematical form; failure yields exactly its error, and the already
/// emitted prefix of instructions stays behind in the sink.
pub trait ExpressionCodeGen {
    /// The mathematical expression this node generates code for.
    spec fn gen_view(&self) -> SpecExpression;

    fn generate(&self, context: &CodeGenContext, builder: &mut Builder) -> (r: Result<
        CodeGenExpr,
        CodeGenError,
    >)
        ensures
            match r {
                Ok(cge) => spec_generate_expr(
                    self.gen_view(),
                    context@.variables,
                    context@.types,
                    old(builder)@,
                ) == Ok::<_, SpecCodeGenError>((cge@, final(builder)@)),
                Err(e) => spec_generate_expr(
                    self.gen_view(),
                    context@.variables,
                    context@.types,
                    old(builder)@,
                ) == Err::<(SpecCodeGenExpr, Seq<Instruction>), _>(e@),
            };
}

impl ExpressionCodeGen for Expression {
    open spec fn gen_view(&self) -> SpecExpression {
        self@
    }

    fn generate(&self, context: &CodeGenContext, builder: &mut Builder) -> (r: Result<
        CodeGenExpr,
        CodeGenError,
    >)
        decreases *self, 1int,
    {
        match self {
            Expression::Binary(exp) => exp.generate(context, builder),
            Expression::Unary(_) => Err(CodeGenError::UnsupportedOperator),
            Expression::Constant(exp) => exp.generate(context, builder),
            Expression::Variable(exp) => exp.generate(context, builder),
            Expression::Call(_) => Err(CodeGenError::UnsupportedOperator),
        }
    }
}

} // verus!
