use crate::lexer::{spec_ident_of, Token, Tokens};
use crate::parser::{CompileError, FromTokenStream};
use vstd::prelude::*;

verus! {

/// A symbolic source-language type: a base-type name and a pointer marker.
/// Two types are equal exactly when both the name and the marker agree;
/// there is no implicit widening and no structural equivalence across names.
#[derive(Debug)]
pub struct Type {
    pub name: String,
    pub is_pointer: bool,
}

/// Mathematical form of a symbolic type.
pub struct SpecType {
    pub name: Seq<char>,
    pub is_pointer: bool,
}

impl View for Type {
    type V = SpecType;

    open spec fn view(&self) -> SpecType {
        SpecType { name: self.name@, is_pointer: self.is_pointer }
    }
}

/// The void sentinel type, written `()`: the default return type of a
/// function without a return annotation.
pub open spec fn spec_void_type() -> SpecType {
    SpecType { name: "()"@, is_pointer: false }
}

impl Type {
    /// The void sentinel type, written `()`.
    pub fn void() -> (r: Self)
        ensures
            r@ == spec_void_type(),
    {
        Self { name: "()".to_owned(), is_pointer: false }
    }
}

/// Grammar of a type: an optional leading `*` (single-level pointers only)
/// followed by an identifier naming the base type.
pub open spec fn spec_parse_type(toks: Seq<Token>, pos: int) -> Option<(SpecType, int)> {
    if pos >= toks.len() {
        None
    } else if toks[pos] is Mul {
        if pos + 1 >= toks.len() {
            None
        } else {
            match spec_ident_of(toks[pos + 1]) {
                Some(name) => Some((SpecType { name, is_pointer: true }, pos + 2)),
                None => None,
            }
        }
    } else {
        match spec_ident_of(toks[pos]) {
            Some(name) => Some((SpecType { name, is_pointer: false }, pos + 1)),
            None => None,
        }
    }
}

impl FromTokenStream for Type {
    type SpecAst = SpecType;

    open spec fn ast(&self) -> SpecType {
        self@
    }

    open spec fn spec_parse(toks: Seq<Token>, pos: int) -> Option<(SpecType, int)> {
        spec_parse_type(toks, pos)
    }

    fn from_token_stream(tokens: &mut Tokens) -> (r: Result<Self, CompileError>) {
        let mut is_pointer = false;

        if !tokens.has_more() {
            return Err(CompileError::new_str("expected a type, found end of stream"));
        }
        if let Token::Mul = tokens.peek() {
            tokens.add_pos(1);
            is_pointer = true;
        }

        if !tokens.has_more() {
            return Err(CompileError::new_str("expected a type name, found end of stream"));
        }
        let name = tokens.get().as_ident()?.to_owned();

        Ok(Self { name, is_pointer })
    }
}

} // verus!
