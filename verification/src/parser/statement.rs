use crate::lexer::{Token, Tokens};
use crate::parser::assignment::{spec_parse_assignment, AssignmentStatement, SpecAssignment};
use crate::parser::expression::{spec_parse_expr, Expression, SpecExpression};
use crate::parser::{CompileError, FromTokenStream};
use vstd::prelude::*;

verus! {

/// A statement inside a scope: a `return` or a declaration.
#[derive(Debug)]
pub enum Statement {
    Return(ReturnStatement),
    Declaration(AssignmentStatement),
}

/// A `return` statement with an optional result expression.
#[derive(Debug)]
pub struct ReturnStatement {
    pub expression: Option<Expression>,
}

/// Mathematical form of a statement.
pub enum SpecStatement {
    Return(Option<SpecExpression>),
    Declaration(SpecAssignment),
}

impl View for ReturnStatement {
    type V = Option<SpecExpression>;

    open spec fn view(&self) -> Option<SpecExpression> {
        match self.expression {
            Some(e) => Some(e@),
            None => None,
        }
    }
}

impl View for Statement {
    type V = SpecStatement;

    open spec fn view(&self) -> SpecStatement {
        match self {
            Statement::Return(r) => SpecStatement::Return(r@),
            Statement::Declaration(a) => SpecStatement::Declaration(a@),
        }
    }
}

/// Grammar of a `return` statement: the `return` keyword, an optional
/// expression (omitted exactly when the next token is `;`), and the
/// mandatory `;`.
pub open spec fn spec_parse_return(toks: Seq<Token>, pos: int) -> Option<
    (Option<SpecExpression>, int),
> {
    if pos < 0 || pos >= toks.len() {
        None
    } else if !(toks[pos] is Return) {
        None
    } else if pos + 1 >= toks.len() {
        None
    } else if toks[pos + 1] is Semicolon {
        Some((None, pos + 2))
    } else {
        match spec_parse_expr(toks, pos + 1) {
            None => None,
            Some((e, p)) => {
                if 0 <= p < toks.len() && toks[p] is Semicolon {
                    Some((Some(e), p + 1))
                } else {
                    None
                }
            },
        }
    }
}

/// Grammar of a statement, dispatched on one token of lookahead:
/// `let` or `var` opens a declaration, `return` a return statement;
/// anything else is an error.
pub open spec fn spec_parse_statement(toks: Seq<Token>, pos: int) -> Option<(SpecStatement, int)> {
    if pos < 0 || pos >= toks.len() {
        None
    } else {
        match toks[pos] {
            Token::Var => match spec_parse_assignment(toks, pos) {
                Some((a, p)) => Some((SpecStatement::Declaration(a), p)),
                None => None,
            },
            Token::Let => match spec_parse_assignment(toks, pos) {
                Some((a, p)) => Some((SpecStatement::Declaration(a), p)),
                None => None,
            },
            Token::Return => match spec_parse_return(toks, pos) {
                Some((e, p)) => Some((SpecStatement::Return(e), p)),
                None => None,
            },
            _ => None,
        }
    }
}

impl FromTokenStream for ReturnStatement {
    type SpecAst = Option<SpecExpression>;

    open spec fn ast(&self) -> Option<SpecExpression> {
        self@
    }

    open spec fn spec_parse(toks: Seq<Token>, pos: int) -> Option<(Option<SpecExpression>, int)> {
        spec_parse_return(toks, pos)
    }

    fn from_token_stream(tokens: &mut Tokens) -> (r: Result<Self, CompileError>) {
        if !tokens.has_more() {
            return Err(CompileError::new_str("expected return, found end of stream"));
        }
        tokens.get().as_return()?;
        let mut expression = None;

        if !tokens.has_more() {
            return Err(CompileError::new_str("expected ; or an expression, found end of stream"));
        }
        let semi = match tokens.peek() {
            Token::Semicolon => true,
            _ => false,
        };
        if !semi {
            expression = Some(Expression::parse(tokens)?);
        }

        if !tokens.has_more() {
            return Err(CompileError::new_str("expected ;, found end of stream"));
        }
        tokens.get().as_semicolon()?;
        Ok(Self { expression })
    }
}

impl FromTokenStream for Statement {
    type SpecAst = SpecStatement;

    open spec fn ast(&self) -> SpecStatement {
        self@
    }

    open spec fn spec_parse(toks: Seq<Token>, pos: int) -> Option<(SpecStatement, int)> {
        spec_parse_statement(toks, pos)
    }

    fn from_token_stream(tokens: &mut Tokens) -> (r: Result<Self, CompileError>) {
        match tokens.try_peek()? {
            Token::Var => Ok(Statement::Declaration(AssignmentStatement::from_token_stream(
                tokens,
            )?)),
            Token::Let => Ok(Statement::Declaration(AssignmentStatement::from_token_stream(
                tokens,
            )?)),
            Token::Return => Ok(Statement::Return(ReturnStatement::from_token_stream(tokens)?)),
            _ => Err(CompileError::new_str("expected a statement")),
        }
    }
}

} // verus!
