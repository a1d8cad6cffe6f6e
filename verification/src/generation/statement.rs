use crate::generation::builder::{Builder, Instruction};
use crate::generation::expressions::ExpressionCodeGen;
use crate::generation::statements::StatementCodeGen;
use crate::generation::{CodeGenContext, CodeGenError};
use crate::parser::statement::{SpecStatement, Statement};
use vstd::prelude::*;

verus! {

impl StatementCodeGen for Statement {
    open spec fn gen_view(&self) -> SpecStatement {
        self@
    }

    fn generate(&self, context: &mut CodeGenContext, builder: &mut Builder) -> (r: Result<
        (),
        CodeGenError,
    >) {
        match self {
            Statement::Return(stat) => {
                match &stat.expression {
                    None => {
                        builder.instructions.push(Instruction::ReturnVoid);
                    },
                    Some(e) => {
                        let value = e.generate(&*context, builder)?;
                        builder.instructions.push(Instruction::Return { value: value.val });
                    },
                }
                Ok(())
            },
            Statement::Declaration(stat) => stat.generate(context, builder),
        }
    }
}

} // verus!
