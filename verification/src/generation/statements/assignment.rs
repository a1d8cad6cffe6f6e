use crate::generation::builder::Builder;
use crate::generation::expressions::ExpressionCodeGen;
use crate::generation::statements::StatementCodeGen;
use crate::generation::{CodeGenContext, CodeGenError};
use crate::parser::assignment::AssignmentStatement;
use crate::parser::statement::SpecStatement;
use vstd::prelude::*;

verus! {

impl StatementCodeGen for AssignmentStatement {
    open spec fn gen_view(&self) -> SpecStatement {
        SpecStatement::Declaration(self@)
    }

    fn generate(&self, context: &mut CodeGenContext, builder: &mut Builder) -> (r: Result<
        (),
        CodeGenError,
    >) {
        let value = self.rhs.generate(&*context, builder)?;
        context.variables.insert(self.ident.clone(), value);
        Ok(())
    }
}

} // verus!
