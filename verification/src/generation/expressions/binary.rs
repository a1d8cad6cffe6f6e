use crate::generation::builder::{Builder, Instruction};
use crate::generation::expressions::{
    spec_generate_expr, CodeGenExpr, ExpressionCodeGen, SpecCodeGenExpr,
};
use crate::generation::type_registry::{
    lemma_initial_types_i64, spec_initial_types, SpecTypeDef,
};
use crate::generation::{CodeGenContext, CodeGenError, SpecCodeGenError};
use crate::parser::expression::{
    BinaryExpression, ConstantExpressionValue, Operator, SpecExpression,
};
use vstd::prelude::*;

verus! {

/// Type equality is exact, success half: adding two integer literals always
/// succeeds under the seeded registry, since every literal is generated at
/// the one type `i64`; the result is typed `i64` and two constant
/// materializations precede the addition.
pub proof fn lemma_generate_add_literals(
    a: ConstantExpressionValue,
    b: ConstantExpressionValue,
    variables: Map<Seq<char>, SpecCodeGenExpr>,
    instrs: Seq<Instruction>,
)
    ensures
        ({
            let e = SpecExpression::Binary(
                Operator::Add,
                Box::new(SpecExpression::Constant(a)),
                Box::new(SpecExpression::Constant(b)),
            );
            let i64_def = SpecTypeDef {
                name: "i64"@,
                type_ref: crate::generation::type_registry::BackendType::Scalar(
                    crate::generation::type_registry::ScalarType::Integer { bits: 64 },
                ),
                size: 64,
            };
            spec_generate_expr(e, variables, spec_initial_types(), instrs) == Ok::<
                _,
                SpecCodeGenError,
            >(
                (
                    SpecCodeGenExpr { val: (instrs.len() + 2) as usize, ty: i64_def },
                    instrs.push(
                        Instruction::ConstInt { dest: instrs.len() as usize, literal: a },
                    ).push(
                        Instruction::ConstInt { dest: (instrs.len() + 1) as usize, literal: b },
                    ).push(
                        Instruction::Add {
                            dest: (instrs.len() + 2) as usize,
                            lhs: instrs.len() as usize,
                            rhs: (instrs.len() + 1) as usize,
                        },
                    ),
                ),
            )
        }),
{
    reveal_with_fuel(spec_generate_expr, 3);
    lemma_initial_types_i64();
}

/// Type equality is exact, failure half: whenever the two operands of a
/// binary expression generate values of different resolved types, the
/// expression fails with the type-mismatch error carrying both types.
pub proof fn lemma_generate_binary_type_mismatch(
    op: Operator,
    e1: SpecExpression,
    e2: SpecExpression,
    variables: Map<Seq<char>, SpecCodeGenExpr>,
    types: Map<Seq<char>, SpecTypeDef>,
    instrs: Seq<Instruction>,
    le: SpecCodeGenExpr,
    re: SpecCodeGenExpr,
    instrs1: Seq<Instruction>,
    instrs2: Seq<Instruction>,
)
    requires
        spec_generate_expr(e1, variables, types, instrs) == Ok::<_, SpecCodeGenError>(
            (le, instrs1),
        ),
        spec_generate_expr(e2, variables, types, instrs1) == Ok::<_, SpecCodeGenError>(
            (re, instrs2),
        ),
        le.ty != re.ty,
    ensures
        spec_generate_expr(
            SpecExpression::Binary(op, Box::new(e1), Box::new(e2)),
            variables,
            types,
            instrs,
        ) == Err::<(SpecCodeGenExpr, Seq<Instruction>), _>(
            SpecCodeGenError::TypesNotEqual(le.ty, re.ty),
        ),
{
}

impl ExpressionCodeGen for BinaryExpression {
    open spec fn gen_view(&self) -> SpecExpression {
        SpecExpression::Binary(self.operator, Box::new(self.lhs@), Box::new(self.rhs@))
    }

    fn generate(&self, context: &CodeGenContext, builder: &mut Builder) -> (r: Result<
        CodeGenExpr,
        CodeGenError,
    >)
        decreases *self, 0int,
    {
        let lhs = self.lhs.generate(context, builder)?;
        let rhs = self.rhs.generate(context, builder)?;

        if !lhs.ty.same_type(&rhs.ty) {
            return Err(CodeGenError::TypesNotEqual(lhs.ty, rhs.ty));
        }

        let dest = builder.instructions.len();
        let instruction = match &self.operator {
            Operator::Add => Instruction::Add { dest, lhs: lhs.val, rhs: rhs.val },
            Operator::Sub => Instruction::Sub { dest, lhs: lhs.val, rhs: rhs.val },
            Operator::Mul => Instruction::Mul { dest, lhs: lhs.val, rhs: rhs.val },
            Operator::Less => Instruction::CmpSignedLessEqual {
                dest,
                lhs: lhs.val,
                rhs: rhs.val,
            },
            _ => {
                return Err(CodeGenError::UnsupportedOperator);
            },
        };
        builder.instructions.push(instruction);

        Ok(CodeGenExpr { val: dest, ty: lhs.ty })
    }
}

} // verus!
