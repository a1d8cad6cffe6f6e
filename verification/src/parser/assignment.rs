use crate::lexer::{spec_ident_of, Token, Tokens};
use crate::parser::expression::{spec_parse_expr, Expression, SpecExpression};
use crate::parser::{CompileError, FromTokenStream};
use vstd::prelude::*;

verus! {

/// A declaration statement binding `ident` to the value of `rhs`;
/// `mutable` records whether it was introduced with `var` rather than `let`.
#[derive(Debug)]
pub struct AssignmentStatement {
    pub mutable: bool,
    pub ident: String,
    pub rhs: Expression,
}

/// Mathematical form of a declaration statement.
pub struct SpecAssignment {
    pub mutable: bool,
    pub ident: Seq<char>,
    pub rhs: SpecExpression,
}

impl View for AssignmentStatement {
    type V = SpecAssignment;

    open spec fn view(&self) -> SpecAssignment {
        SpecAssignment { mutable: self.mutable, ident: self.ident@, rhs: self.rhs@ }
    }
}

/// Grammar of a declaration: an introducer token (`var` marks the binding
/// mutable), an identifier, `=`, a full expression, and a terminating `;`.
pub open spec fn spec_parse_assignment(toks: Seq<Token>, pos: int) -> Option<
    (SpecAssignment, int),
> {
    if pos < 0 || pos >= toks.len() {
        None
    } else {
        let mutable = toks[pos] is Var;
        if pos + 1 >= toks.len() {
            None
        } else {
            match spec_ident_of(toks[pos + 1]) {
                None => None,
                Some(ident) => {
                    if pos + 2 >= toks.len() || !(toks[pos + 2] is Assign) {
                        None
                    } else {
                        match spec_parse_expr(toks, pos + 3) {
                            None => None,
                            Some((rhs, p)) => {
                                if 0 <= p < toks.len() && toks[p] is Semicolon {
                                    Some((SpecAssignment { mutable, ident, rhs }, p + 1))
                                } else {
                                    None
                                }
                            },
                        }
                    }
                },
            }
        }
    }
}

impl FromTokenStream for AssignmentStatement {
    type SpecAst = SpecAssignment;

    open spec fn ast(&self) -> SpecAssignment {
        self@
    }

    open spec fn spec_parse(toks: Seq<Token>, pos: int) -> Option<(SpecAssignment, int)> {
        spec_parse_assignment(toks, pos)
    }

    fn from_token_stream(tokens: &mut Tokens) -> (r: Result<Self, CompileError>) {
        if !tokens.has_more() {
            return Err(CompileError::new_str("expected a declaration, found end of stream"));
        }
        let mutable = match tokens.get() {
            Token::Var => true,
            _ => false,
        };
        if !tokens.has_more() {
            return Err(CompileError::new_str("expected an identifier, found end of stream"));
        }
        let ident = tokens.get().as_ident()?.to_owned();
        if !tokens.has_more() {
            return Err(CompileError::new_str("expected =, found end of stream"));
        }
        tokens.get().as_assign()?;
        let rhs = Expression::parse(tokens)?;
        if !tokens.has_more() {
            return Err(CompileError::new_str("expected ;, found end of stream"));
        }
        tokens.get().as_semicolon()?;

        Ok(Self { mutable, ident, rhs })
    }
}

} // verus!
