use crate::lexer::{Token, Tokens};
use crate::parser::assignment::{spec_parse_assignment, SpecAssignment};
use crate::parser::expression::Expression;
use crate::parser::{CompileError, FromTokenStream};
use vstd::prelude::*;

verus! {

/// A declaration in free-standing form; it follows exactly the grammar of
/// `AssignmentStatement`.
#[derive(Debug)]
pub struct Declaration {
    pub mutable: bool,
    pub ident: String,
    pub rhs: Expression,
}

impl View for Declaration {
    type V = SpecAssignment;

    open spec fn view(&self) -> SpecAssignment {
        SpecAssignment { mutable: self.mutable, ident: self.ident@, rhs: self.rhs@ }
    }
}

impl FromTokenStream for Declaration {
    type SpecAst = SpecAssignment;

    open spec fn ast(&self) -> SpecAssignment {
        self@
    }

    open spec fn spec_parse(toks: Seq<Token>, pos: int) -> Option<(SpecAssignment, int)> {
        spec_parse_assignment(toks, pos)
    }

    fn from_token_stream(tokens: &mut Tokens) -> (r: Result<Self, CompileError>) {
        if !tokens.has_more() {
            return Err(CompileError::new_str("expected a declaration, found end of stream"));
        }
        let mutable = match tokens.get() {
            Token::Var => true,
            _ => false,
        };
        if !tokens.has_more() {
            return Err(CompileError::new_str("expected an identifier, found end of stream"));
        }
        let ident = tokens.get().as_ident()?.to_owned();
        if !tokens.has_more() {
            return Err(CompileError::new_str("expected =, found end of stream"));
        }
        tokens.get().as_assign()?;
        let rhs = Expression::parse(tokens)?;
        if !tokens.has_more() {
            return Err(CompileError::new_str("expected ;, found end of stream"));
        }
        tokens.get().as_semicolon()?;

        Ok(Self { mutable, ident, rhs })
    }
}

} // verus!
