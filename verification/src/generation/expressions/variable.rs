use crate::generation::builder::{Builder, Instruction};
use crate::generation::expressions::{
    spec_generate_expr, CodeGenExpr, ExpressionCodeGen, SpecCodeGenExpr,
};
use crate::generation::type_registry::SpecTypeDef;
use crate::generation::{CodeGenContext, CodeGenError, SpecCodeGenError};
use crate::parser::expression::{SpecExpression, VariableExpression};
use vstd::prelude::*;

verus! {

/// Referencing an identifier with no prior binding fails with the
/// invalid-variable error naming exactly that identifier, whatever else
/// the context holds; a bound identifier yields its value unchanged and
/// emits nothing.
pub proof fn lemma_generate_variable(
    name: Seq<char>,
    variables: Map<Seq<char>, SpecCodeGenExpr>,
    types: Map<Seq<char>, SpecTypeDef>,
    instrs: Seq<Instruction>,
)
    ensures
        !variables.contains_key(name) ==> spec_generate_expr(
            SpecExpression::Variable(name),
            variables,
            types,
            instrs,
        ) == Err::<(SpecCodeGenExpr, Seq<Instruction>), _>(
            SpecCodeGenError::InvalidVariable(name),
        ),
        variables.contains_key(name) ==> spec_generate_expr(
            SpecExpression::Variable(name),
            variables,
            types,
            instrs,
        ) == Ok::<_, SpecCodeGenError>((variables[name], instrs)),
{
}

impl ExpressionCodeGen for VariableExpression {
    open spec fn gen_view(&self) -> SpecExpression {
        SpecExpression::Variable(self.name@)
    }

    fn generate(&self, context: &CodeGenContext, builder: &mut Builder) -> (r: Result<
        CodeGenExpr,
        CodeGenError,
    >) {
        // A bound identifier yields the already materialized value, not a
        // fresh load; an unbound one aborts the unit naming the identifier.
        match context.variables.get(&self.name) {
            Some(e) => Ok(e.duplicate()),
            None => Err(CodeGenError::InvalidVariable(self.name.clone())),
        }
    }
}

} // verus!
