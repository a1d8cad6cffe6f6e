use crate::lexer::{Token, Tokens};
use crate::parser::statement::{spec_parse_statement, SpecStatement, Statement};
use crate::parser::{CompileError, FromTokenStream};
use vstd::prelude::*;

verus! {

/// A brace-delimited scope: an ordered sequence of statements.
/// A scope with zero statements is valid.
#[derive(Debug)]
pub struct Scope {
    pub elements: Vec<Statement>,
}

/// Mathematical form of a scope.
pub struct SpecScope {
    pub elements: Seq<SpecStatement>,
}

/// Pointwise mathematical form of a sequence of statements.
pub open spec fn view_statements(stmts: Seq<Statement>) -> Seq<SpecStatement>
    decreases stmts,
{
    if stmts.len() == 0 {
        Seq::empty()
    } else {
        view_statements(stmts.drop_last()).push(stmts.last()@)
    }
}

impl View for Scope {
    type V = SpecScope;

    open spec fn view(&self) -> SpecScope {
        SpecScope { elements: view_statements(self.elements@) }
    }
}

/// Grammar of the statements of a scope, from just after the opening `{`:
/// statements until the lookahead is `}`, which is then consumed.
/// `acc` carries the statements already parsed.
pub open spec fn spec_parse_statements(toks: Seq<Token>, pos: int, acc: Seq<SpecStatement>) -> Option<
    (Seq<SpecStatement>, int),
>
    decreases toks.len() - pos,
{
    if pos < 0 || pos >= toks.len() {
        None
    } else if toks[pos] is RBrace {
        Some((acc, pos + 1))
    } else {
        match spec_parse_statement(toks, pos) {
            None => None,
            Some((s, p)) => {
                if p <= pos || p > toks.len() {
                    None  // a statement always consumes tokens; guards the recursion
                } else {
                    spec_parse_statements(toks, p, acc.push(s))
                }
            },
        }
    }
}

/// Grammar of a scope: `{`, statements, `}`.
pub open spec fn spec_parse_scope(toks: Seq<Token>, pos: int) -> Option<(SpecScope, int)> {
    if pos < 0 || pos >= toks.len() || !(toks[pos] is LBrace) {
        None
    } else {
        match spec_parse_statements(toks, pos + 1, Seq::empty()) {
            Some((elements, p)) => Some((SpecScope { elements }, p)),
            None => None,
        }
    }
}

impl Scope {
    /// Parses statements until the closing `}`, which is consumed.
    /// `elements` carries the statements already parsed.
    fn parse_statements(tokens: &mut Tokens, elements: Vec<Statement>) -> (r: Result<
        Vec<Statement>,
        CompileError,
    >)
        requires
            old(tokens).wf(),
        ensures
            final(tokens)@.tokens == old(tokens)@.tokens,
            final(tokens).wf(),
            match r {
                Ok(out) => spec_parse_statements(
                    old(tokens)@.tokens,
                    old(tokens)@.pos,
                    view_statements(elements@),
                ) == Some((view_statements(out@), final(tokens)@.pos))
                    && old(tokens)@.pos < final(tokens)@.pos,
                Err(_) => spec_parse_statements(
                    old(tokens)@.tokens,
                    old(tokens)@.pos,
                    view_statements(elements@),
                ) is None,
            },
        decreases old(tokens)@.tokens.len() - old(tokens)@.pos,
    {
        let mut elements = elements;
        if !tokens.has_more() {
            return Err(CompileError::new_str("expected a statement or }, found end of stream"));
        }
        if let Token::RBrace = tokens.peek() {
            tokens.add_pos(1);
            return Ok(elements);
        }

        let s = Statement::from_token_stream(tokens)?;
        let ghost old_elements = elements@;
        elements.push(s);
        proof {
            assert(elements@.drop_last() =~= old_elements);
            assert(view_statements(elements@) == view_statements(old_elements).push(
                elements@.last()@,
            ));
        }
        Self::parse_statements(tokens, elements)
    }
}

impl FromTokenStream for Scope {
    type SpecAst = SpecScope;

    open spec fn ast(&self) -> SpecScope {
        self@
    }

    open spec fn spec_parse(toks: Seq<Token>, pos: int) -> Option<(SpecScope, int)> {
        spec_parse_scope(toks, pos)
    }

    fn from_token_stream(tokens: &mut Tokens) -> (r: Result<Self, CompileError>) {
        if !tokens.has_more() {
            return Err(CompileError::new_str("expected {, found end of stream"));
        }
        tokens.get().as_lbrace()?;

        let elements = Self::parse_statements(tokens, Vec::new())?;
        Ok(Self { elements })
    }
}

} // verus!
