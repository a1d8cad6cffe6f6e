use crate::generation::builder::{Builder, Instruction};
use crate::generation::expressions::{CodeGenExpr, ExpressionCodeGen};
use crate::generation::{CodeGenContext, CodeGenError};
use crate::parser::expression::{ConstantExpression, SpecExpression};
use crate::parser::types::Type;
use vstd::prelude::*;

verus! {

impl ExpressionCodeGen for ConstantExpression {
    open spec fn gen_view(&self) -> SpecExpression {
        SpecExpression::Constant(self.value)
    }

    fn generate(&self, context: &CodeGenContext, builder: &mut Builder) -> (r: Result<
        CodeGenExpr,
        CodeGenError,
    >) {
        // Every literal is materialized as a 64-bit constant typed `i64`;
        // the literal's apparent width and signedness are deliberately
        // discarded, with no size inference from context.
        let i64_type = Type { name: "i64".to_owned(), is_pointer: false };
        let ty = match context.type_registry.get(&i64_type) {
            Some(ty) => ty,
            None => {
                return Err(CodeGenError::InvalidType(i64_type.name));
            },
        };

        let dest = builder.instructions.len();
        builder.instructions.push(Instruction::ConstInt { dest, literal: self.value });

        Ok(CodeGenExpr { val: dest, ty })
    }
}

} // verus!
