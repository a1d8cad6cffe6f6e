use crate::parser::CompileError;
use vstd::prelude::*;

verus! {

/// One lexical token of the source language. The token stream is produced by
/// an external tokenizer (see `app`); this library consumes finished tokens.
#[derive(Debug, Clone)]
pub enum Token {
    Let,
    Var,
    Fun,
    Unsafe,
    Const,
    Return,
    If,
    While,
    Break,
    Continue,
    Loop,
    DoubleColon,
    Semicolon,
    Point,
    Comma,
    Assign,
    Add,
    AddAssign,
    Sub,
    SubAssign,
    Mul,
    MulAssign,
    Div,
    DivAssign,
    Mod,
    ModAssign,
    LParen,
    RParen,
    LBrace,
    RBrace,
    LBracket,
    RBracket,
    Less,
    LessEqual,
    Greater,
    GreaterEqual,
    Identifier(String),
    IntLiteral(i64),
    UIntLiteral(u64),
}

/// The identifier text of a token, when it has one.
pub open spec fn spec_ident_of(t: Token) -> Option<Seq<char>> {
    match t {
        Token::Identifier(s) => Some(s@),
        _ => None,
    }
}

impl Token {
    /// Extracts the identifier text, or fails when the token is not an identifier.
    pub fn as_ident(&self) -> (r: Result<&str, CompileError>)
        ensures
            match spec_ident_of(*self) {
                Some(name) => r matches Ok(s) && s@ == name,
                None => r is Err,
            },
    {
        match self {
            Token::Identifier(ident) => Ok(ident.as_str()),
            _ => Err(CompileError::new_str("expected an identifier")),
        }
    }

    /// Succeeds exactly when the token is `(`.
    pub fn as_lparen(&self) -> (r: Result<(), CompileError>)
        ensures
            r is Ok <==> self is LParen,
    {
        match self {
            Token::LParen => Ok(()),
            _ => Err(CompileError::new_str("expected (")),
        }
    }

    /// Succeeds exactly when the token is `)`.
    pub fn as_rparen(&self) -> (r: Result<(), CompileError>)
        ensures
            r is Ok <==> self is RParen,
    {
        match self {
            Token::RParen => Ok(()),
            _ => Err(CompileError::new_str("expected )")),
        }
    }

    /// Succeeds exactly when the token is `{`.
    pub fn as_lbrace(&self) -> (r: Result<(), CompileError>)
        ensures
            r is Ok <==> self is LBrace,
    {
        match self {
            Token::LBrace => Ok(()),
            _ => Err(CompileError::new_str("expected {")),
        }
    }

    /// Succeeds exactly when the token is `}`.
    pub fn as_rbrace(&self) -> (r: Result<(), CompileError>)
        ensures
            r is Ok <==> self is RBrace,
    {
        match self {
            Token::RBrace => Ok(()),
            _ => Err(CompileError::new_str("expected }")),
        }
    }

    /// Succeeds exactly when the token is `:`.
    pub fn as_double_colon(&self) -> (r: Result<(), CompileError>)
        ensures
            r is Ok <==> self is DoubleColon,
    {
        match self {
            Token::DoubleColon => Ok(()),
            _ => Err(CompileError::new_str("expected :")),
        }
    }

    /// Succeeds exactly when the token is `,`.
    pub fn as_comma(&self) -> (r: Result<(), CompileError>)
        ensures
            r is Ok <==> self is Comma,
    {
        match self {
            Token::Comma => Ok(()),
            _ => Err(CompileError::new_str("expected ,")),
        }
    }

    /// Succeeds exactly when the token is `=`.
    pub fn as_assign(&self) -> (r: Result<(), CompileError>)
        ensures
            r is Ok <==> self is Assign,
    {
        match self {
            Token::Assign => Ok(()),
            _ => Err(CompileError::new_str("expected =")),
        }
    }

    /// Succeeds exactly when the token is `;`.
    pub fn as_semicolon(&self) -> (r: Result<(), CompileError>)
        ensures
            r is Ok <==> self is Semicolon,
    {
        match self {
            Token::Semicolon => Ok(()),
            _ => Err(CompileError::new_str("expected ;")),
        }
    }

    /// Succeeds exactly when the token is the `return` keyword.
    pub fn as_return(&self) -> (r: Result<(), CompileError>)
        ensures
            r is Ok <==> self is Return,
    {
        match self {
            Token::Return => Ok(()),
            _ => Err(CompileError::new_str("expected return")),
        }
    }
}

/// Mathematical state of a token cursor: the token sequence and the position.
pub struct SpecTokens {
    pub tokens: Seq<Token>,
    pub pos: int,
}

/// A monotonically advancing cursor over a finished token sequence.
/// The sequence itself is never changed by any cursor operation.
#[derive(Debug)]
pub struct Tokens {
    tokens: Vec<Token>,
    pos: usize,
}

impl View for Tokens {
    type V = SpecTokens;

    closed spec fn view(&self) -> SpecTokens {
        SpecTokens { tokens: self.tokens@, pos: self.pos as int }
    }
}

impl Tokens {
    /// The cursor invariant: the position never runs past the end of the sequence.
    pub open spec fn wf(&self) -> bool {
        0 <= self@.pos <= self@.tokens.len()
    }

    /// Wraps a finished token sequence in a cursor standing at its start.
    pub fn new(tokens: Vec<Token>) -> (r: Tokens)
        ensures
            r@.tokens == tokens@,
            r@.pos == 0,
            r.wf(),
    {
        Tokens { tokens, pos: 0 }
    }

    /// The underlying token sequence.
    pub fn tokens(&self) -> (r: &[Token])
        ensures
            r@ == self@.tokens,
    {
        self.tokens.as_slice()
    }

    /// The current token, or `None` when the cursor stands at the end.
    pub fn get_peek(&self) -> (r: Option<&Token>)
        requires
            self.wf(),
        ensures
            match r {
                Some(t) => self@.pos < self@.tokens.len() && *t == self@.tokens[self@.pos],
                None => self@.pos == self@.tokens.len(),
            },
    {
        if self.pos < self.tokens.len() {
            Some(&self.tokens[self.pos])
        } else {
            None
        }
    }

    /// The current token. Callers must know the cursor is not exhausted.
    pub fn peek(&self) -> (r: &Token)
        requires
            self@.pos < self@.tokens.len(),
        ensures
            *r == self@.tokens[self@.pos],
    {
        &self.tokens[self.pos]
    }

    /// The current token, or an error when the cursor is exhausted.
    pub fn try_peek(&self) -> (r: Result<&Token, CompileError>)
        requires
            self.wf(),
        ensures
            match r {
                Ok(t) => self@.pos < self@.tokens.len() && *t == self@.tokens[self@.pos],
                Err(_) => self@.pos == self@.tokens.len(),
            },
    {
        if self.has_more() {
            Ok(self.peek())
        } else {
            Err(CompileError::new_str("no more elements available in token stream"))
        }
    }

    /// Whether a token remains under the cursor.
    pub fn has_more(&self) -> (r: bool)
        ensures
            r == (self@.pos < self@.tokens.len()),
    {
        self.pos < self.tokens.len()
    }

    /// Returns the current token and advances the cursor by one.
    pub fn get(&mut self) -> (r: &Token)
        requires
            old(self).wf(),
            old(self)@.pos < old(self)@.tokens.len(),
        ensures
            *r == old(self)@.tokens[old(self)@.pos],
            final(self)@.tokens == old(self)@.tokens,
            final(self)@.pos == old(self)@.pos + 1,
            final(self).wf(),
    {
        proof {
            vstd::std_specs::vec::axiom_spec_len(&self.tokens);
        }
        self.pos = self.pos + 1;
        &self.tokens[self.pos - 1]
    }

    /// Skips `amount` tokens whose values were already inspected through `peek`.
    pub fn add_pos(&mut self, amount: usize)
        requires
            old(self).wf(),
            old(self)@.pos + amount <= old(self)@.tokens.len(),
        ensures
            final(self)@.tokens == old(self)@.tokens,
            final(self)@.pos == old(self)@.pos + amount,
            final(self).wf(),
    {
        proof {
            vstd::std_specs::vec::axiom_spec_len(&self.tokens);
        }
        self.pos = self.pos + amount;
    }
}

} // verus!
