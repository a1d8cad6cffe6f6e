use crate::generation::builder::{Builder, Instruction};
use crate::generation::expressions::{spec_generate_expr, SpecCodeGenExpr};
use crate::generation::{CodeGenContext, CodeGenError, SpecCodeGenContext, SpecCodeGenError};
use crate::parser::statement::SpecStatement;
use vstd::prelude::*;

pub mod assignment;

verus! {

/// What generating code for a statement means, under context state `ctx`
/// with `instrs` already emitted: the variable bindings and instructions
/// after the statement, or the error that aborts the unit.
///
/// - A `return` without an expression lowers to a void return instruction.
/// - A `return` with an expression generates the expression and lowers to a
///   value-carrying return of its handle.
/// - A declaration generates its right-hand side and binds the identifier
///   to the generated value, overwriting any earlier binding; it emits no
///   instruction of its own.
pub open spec fn spec_generate_statement(
    s: SpecStatement,
    ctx: SpecCodeGenContext,
    instrs: Seq<Instruction>,
) -> Result<(Map<Seq<char>, SpecCodeGenExpr>, Seq<Instruction>), SpecCodeGenError> {
    match s {
        SpecStatement::Return(None) => Ok((ctx.variables, instrs.push(Instruction::ReturnVoid))),
        SpecStatement::Return(Some(e)) => {
            match spec_generate_expr(e, ctx.variables, ctx.types, instrs) {
                Err(err) => Err(err),
                Ok((cge, instrs2)) => Ok(
                    (ctx.variables, instrs2.push(Instruction::Return { value: cge.val })),
                ),
            }
        },
        SpecStatement::Declaration(a) => {
            match spec_generate_expr(a.rhs, ctx.variables, ctx.types, instrs) {
                Err(err) => Err(err),
                Ok((cge, instrs2)) => Ok((ctx.variables.insert(a.ident, cge), instrs2)),
            }
        },
    }
}

/// Code generation for one statement form, against the active context and
/// the instruction sink. The contract is uniform: success leaves exactly
/// the bindings and instructions of `spec_generate_statement` on the
/// statement's mathematical form; failure yields exactly its error, and
/// the type registry is never touched.
pub trait StatementCodeGen {
    /// The mathematical statement this node generates code for.
    spec fn gen_view(&self) -> SpecStatement;

    fn generate(&self, context: &mut CodeGenContext, builder: &mut Builder) -> (r: Result<
        (),
        CodeGenError,
    >)
        ensures
            final(context)@.types == old(context)@.types,
            match r {
                Ok(_) => spec_generate_statement(
                    self.gen_view(),
                    old(context)@,
                    old(builder)@,
                ) == Ok::<_, SpecCodeGenError>((final(context)@.variables, final(builder)@)),
                Err(e) => spec_generate_statement(self.gen_view(), old(context)@, old(builder)@)
                    == Err::<(Map<Seq<char>, SpecCodeGenExpr>, Seq<Instruction>), _>(e@),
            };
}

} // verus!
