use crate::lexer::{spec_ident_of, Token, Tokens};
use crate::parser::{CompileError, FromTokenStream};
use vstd::prelude::*;

verus! {

/// A binary operator token's meaning, including the compound-assignment and
/// relational forms. Only a subset takes part in precedence climbing.
#[derive(Clone, Copy, Debug, Hash, PartialEq, Eq, Structural)]
pub enum Operator {
    Add,
    AddAssign,
    Sub,
    SubAssign,
    Mul,
    MulAssign,
    Div,
    DivAssign,
    Mod,
    ModAssign,
    Less,
    LessEqual,
    Greater,
    GreaterEqual,
}

/// The operator a token stands for, when it stands for one.
pub open spec fn spec_operator_of(t: Token) -> Option<Operator> {
    match t {
        Token::Add => Some(Operator::Add),
        Token::AddAssign => Some(Operator::AddAssign),
        Token::Sub => Some(Operator::Sub),
        Token::SubAssign => Some(Operator::SubAssign),
        Token::Mul => Some(Operator::Mul),
        Token::MulAssign => Some(Operator::MulAssign),
        Token::Div => Some(Operator::Div),
        Token::DivAssign => Some(Operator::DivAssign),
        Token::Mod => Some(Operator::Mod),
        Token::ModAssign => Some(Operator::ModAssign),
        Token::Less => Some(Operator::Less),
        Token::LessEqual => Some(Operator::LessEqual),
        Token::Greater => Some(Operator::Greater),
        Token::GreaterEqual => Some(Operator::GreaterEqual),
        _ => None,
    }
}

/// The fixed precedence table: relational operators bind loosest, then
/// addition, then subtraction (deliberately ranked above addition), then the
/// multiplicative operators. Operators outside the table get -1 and terminate
/// precedence climbing.
pub open spec fn spec_op_precedence(op: Operator) -> int {
    match op {
        Operator::Less => 10,
        Operator::LessEqual => 10,
        Operator::Greater => 10,
        Operator::GreaterEqual => 10,
        Operator::Add => 20,
        Operator::Sub => 30,
        Operator::Mul => 40,
        Operator::Div => 40,
        Operator::Mod => 40,
        _ => -1,
    }
}

/// Binding strength of a lookahead token: -1 for anything that is not a
/// climbing operator, so that it stops the climb.
pub open spec fn spec_token_precedence(t: Token) -> int {
    match spec_operator_of(t) {
        Some(op) => spec_op_precedence(op),
        None => -1,
    }
}

impl Operator {
    /// Maps an operator token to its `Operator`, or fails on any other token.
    pub fn from_token(token: &Token) -> (r: Result<Self, CompileError>)
        ensures
            match spec_operator_of(*token) {
                Some(op) => r == Ok::<Operator, CompileError>(op),
                None => r is Err,
            },
    {
        match token {
            Token::Add => Ok(Operator::Add),
            Token::AddAssign => Ok(Operator::AddAssign),
            Token::Sub => Ok(Operator::Sub),
            Token::SubAssign => Ok(Operator::SubAssign),
            Token::Mul => Ok(Operator::Mul),
            Token::MulAssign => Ok(Operator::MulAssign),
            Token::Mod => Ok(Operator::Mod),
            Token::ModAssign => Ok(Operator::ModAssign),
            Token::Div => Ok(Operator::Div),
            Token::DivAssign => Ok(Operator::DivAssign),
            Token::Less => Ok(Operator::Less),
            Token::LessEqual => Ok(Operator::LessEqual),
            Token::Greater => Ok(Operator::Greater),
            Token::GreaterEqual => Ok(Operator::GreaterEqual),
            _ => Err(CompileError::new_str("expected an operator")),
        }
    }
}

impl FromTokenStream for Operator {
    type SpecAst = Operator;

    open spec fn ast(&self) -> Operator {
        *self
    }

    open spec fn spec_parse(toks: Seq<Token>, pos: int) -> Option<(Operator, int)> {
        if 0 <= pos < toks.len() {
            match spec_operator_of(toks[pos]) {
                Some(op) => Some((op, pos + 1)),
                None => None,
            }
        } else {
            None
        }
    }

    fn from_token_stream(tokens: &mut Tokens) -> (r: Result<Self, CompileError>) {
        if !tokens.has_more() {
            return Err(CompileError::new_str("expected an operator, found end of stream"));
        }
        Self::from_token(tokens.get())
    }
}

/// The exact binding strength the parser consults for a lookahead token.
pub fn get_token_precedence(token: &Token) -> (r: i32)
    ensures
        r as int == spec_token_precedence(*token),
{
    let operator = match Operator::from_token(token) {
        Ok(operator) => operator,
        Err(_) => {
            return -1;
        },
    };
    match operator {
        Operator::Less => 10,
        Operator::LessEqual => 10,
        Operator::Greater => 10,
        Operator::GreaterEqual => 10,
        Operator::Add => 20,
        Operator::Sub => 30,
        Operator::Mul => 40,
        Operator::Div => 40,
        Operator::Mod => 40,
        _ => -1,
    }
}

/// An expression tree node. Each node exclusively owns its children.
#[derive(Debug)]
pub enum Expression {
    Binary(BinaryExpression),
    Unary(UnaryExpression),
    Constant(ConstantExpression),
    Variable(VariableExpression),
    Call(CallExpression),
}

#[derive(Debug)]
pub struct BinaryExpression {
    pub operator: Operator,
    pub lhs: Box<Expression>,
    pub rhs: Box<Expression>,
}

#[derive(Debug)]
pub struct UnaryExpression {
    pub operator: Operator,
    pub lhs: Box<Expression>,
}

#[derive(Debug)]
pub struct ConstantExpression {
    pub value: ConstantExpressionValue,
}

/// A literal's value: the tokenizer classifies a leading `-` into a signed
/// literal, everything else into an unsigned one.
#[derive(Clone, Copy, Debug, PartialEq, Eq, Structural)]
pub enum ConstantExpressionValue {
    Int(i64),
    UInt(u64),
}

#[derive(Debug)]
pub struct VariableExpression {
    pub name: String,
}

#[derive(Debug)]
pub struct CallExpression {
    pub name: String,
    pub args: Vec<Expression>,
}

/// Mathematical form of an expression tree, with identifier text as
/// character sequences.
pub enum SpecExpression {
    Binary(Operator, Box<SpecExpression>, Box<SpecExpression>),
    Unary(Operator, Box<SpecExpression>),
    Constant(ConstantExpressionValue),
    Variable(Seq<char>),
    Call(Seq<char>, Seq<SpecExpression>),
}

/// The mathematical tree an expression node stands for.
pub open spec fn view_expr(e: Expression) -> SpecExpression
    decreases e,
{
    match e {
        Expression::Binary(b) => SpecExpression::Binary(
            b.operator,
            Box::new(view_expr(*b.lhs)),
            Box::new(view_expr(*b.rhs)),
        ),
        Expression::Unary(u) => SpecExpression::Unary(u.operator, Box::new(view_expr(*u.lhs))),
        Expression::Constant(c) => SpecExpression::Constant(c.value),
        Expression::Variable(v) => SpecExpression::Variable(v.name@),
        Expression::Call(c) => SpecExpression::Call(c.name@, view_exprs(c.args@)),
    }
}

/// Pointwise mathematical form of a sequence of expressions.
pub open spec fn view_exprs(args: Seq<Expression>) -> Seq<SpecExpression>
    decreases args,
{
    if args.len() == 0 {
        Seq::empty()
    } else {
        view_exprs(args.drop_last()).push(view_expr(args.last()))
    }
}

impl View for Expression {
    type V = SpecExpression;

    open spec fn view(&self) -> SpecExpression {
        view_expr(*self)
    }
}

/// Grammar of a full expression: a primary expression followed by
/// precedence climbing over the binary operators.
pub open spec fn spec_parse_expr(toks: Seq<Token>, pos: int) -> Option<(SpecExpression, int)>
    decreases toks.len() - pos, 3int,
{
    if pos < 0 || pos > toks.len() {
        None
    } else {
        match spec_parse_primary(toks, pos) {
            None => None,
            Some((lhs, p)) => {
                if p <= pos || p > toks.len() {
                    None  // a primary expression always consumes tokens; guards the recursion
                } else {
                    spec_parse_bin_op_rhs(toks, p, 0, lhs)
                }
            },
        }
    }
}

/// Grammar of a primary expression, dispatched on one token of lookahead:
/// an identifier (variable or call), an integer literal, or a
/// parenthesized sub-expression.
pub open spec fn spec_parse_primary(toks: Seq<Token>, pos: int) -> Option<(SpecExpression, int)>
    decreases toks.len() - pos, 2int,
{
    if pos < 0 || pos >= toks.len() {
        None
    } else {
        match toks[pos] {
            Token::Identifier(_) => spec_parse_ident_expr(toks, pos),
            Token::UIntLiteral(_) => spec_parse_constant(toks, pos),
            Token::IntLiteral(_) => spec_parse_constant(toks, pos),
            Token::LParen => spec_parse_paren(toks, pos),
            _ => None,
        }
    }
}

/// Grammar of an identifier expression: a bare identifier is a variable
/// reference; an identifier followed by `(` opens a call whose arguments
/// run to the matching `)`.
pub open spec fn spec_parse_ident_expr(toks: Seq<Token>, pos: int) -> Option<
    (SpecExpression, int),
>
    decreases toks.len() - pos, 1int,
{
    if pos < 0 || pos >= toks.len() {
        None
    } else {
        match toks[pos] {
            Token::Identifier(name) => {
                if pos + 1 < toks.len() && toks[pos + 1] is LParen {
                    match spec_parse_call_args(toks, pos + 2, Seq::empty()) {
                        None => None,
                        Some((args, p)) => Some((SpecExpression::Call(name@, args), p)),
                    }
                } else {
                    Some((SpecExpression::Variable(name@), pos + 1))
                }
            },
            _ => None,
        }
    }
}

/// Grammar of a call argument list from just after the opening `(`:
/// zero or more expressions with a mandatory comma between any two,
/// terminated by `)`. `acc` carries the arguments already parsed.
pub open spec fn spec_parse_call_args(
    toks: Seq<Token>,
    pos: int,
    acc: Seq<SpecExpression>,
) -> Option<(Seq<SpecExpression>, int)>
    decreases toks.len() - pos, 4int,
{
    if pos < 0 || pos >= toks.len() {
        None
    } else if toks[pos] is RParen {
        Some((acc, pos + 1))
    } else {
        match spec_parse_expr(toks, pos) {
            None => None,
            Some((e, p)) => {
                if p <= pos || p >= toks.len() {
                    None  // an argument consumes tokens and must be followed by `,` or `)`
                } else if toks[p] is RParen {
                    Some((acc.push(e), p + 1))
                } else if toks[p] is Comma {
                    spec_parse_call_args(toks, p + 1, acc.push(e))
                } else {
                    None
                }
            },
        }
    }
}

/// Grammar of an integer literal.
pub open spec fn spec_parse_constant_value(toks: Seq<Token>, pos: int) -> Option<
    (ConstantExpressionValue, int),
> {
    if pos < 0 || pos >= toks.len() {
        None
    } else {
        match toks[pos] {
            Token::IntLiteral(v) => Some((ConstantExpressionValue::Int(v), pos + 1)),
            Token::UIntLiteral(v) => Some((ConstantExpressionValue::UInt(v), pos + 1)),
            _ => None,
        }
    }
}

/// An integer literal as a constant expression.
pub open spec fn spec_parse_constant(toks: Seq<Token>, pos: int) -> Option<(SpecExpression, int)> {
    match spec_parse_constant_value(toks, pos) {
        Some((v, p)) => Some((SpecExpression::Constant(v), p)),
        None => None,
    }
}

/// Grammar of a parenthesized sub-expression: `(`, a full expression, `)`.
pub open spec fn spec_parse_paren(toks: Seq<Token>, pos: int) -> Option<(SpecExpression, int)>
    decreases toks.len() - pos, 1int,
{
    if pos < 0 || pos >= toks.len() {
        None
    } else if !(toks[pos] is LParen) {
        None
    } else {
        match spec_parse_expr(toks, pos + 1) {
            None => None,
            Some((e, p)) => {
                if 0 <= p < toks.len() && toks[p] is RParen {
                    Some((e, p + 1))
                } else {
                    None
                }
            },
        }
    }
}

/// Precedence climbing from a parsed left-hand side: while the lookahead is
/// an operator binding at least as tightly as `min_prec`, consume it, parse
/// the next primary, let any tighter-binding operator absorb further terms
/// to the right, and fold left. A `;`, the end of the stream, or a weaker
/// operator stops the climb and yields the folded tree.
pub open spec fn spec_parse_bin_op_rhs(
    toks: Seq<Token>,
    pos: int,
    min_prec: int,
    lhs: SpecExpression,
) -> Option<(SpecExpression, int)>
    decreases toks.len() - pos, 0int,
{
    if pos < 0 || pos > toks.len() {
        None
    } else if pos == toks.len() {
        Some((lhs, pos))
    } else if toks[pos] is Semicolon {
        Some((lhs, pos))
    } else if spec_token_precedence(toks[pos]) < min_prec {
        Some((lhs, pos))
    } else {
        let tp = spec_token_precedence(toks[pos]);
        match spec_operator_of(toks[pos]) {
            None => None,
            Some(op) => match spec_parse_primary(toks, pos + 1) {
                None => None,
                Some((rhs0, p)) => {
                    if p <= pos + 1 || p > toks.len() {
                        None  // a primary expression always consumes tokens; guards the recursion
                    } else {
                        let next = if p == toks.len() {
                            -1
                        } else {
                            spec_token_precedence(toks[p])
                        };
                        if tp < next {
                            match spec_parse_bin_op_rhs(toks, p, tp + 1, rhs0) {
                                None => None,
                                Some((rhs, p2)) => {
                                    if p2 < p || p2 > toks.len() {
                                        None  // the cursor never moves backwards
                                    } else {
                                        spec_parse_bin_op_rhs(
                                            toks,
                                            p2,
                                            min_prec,
                                            SpecExpression::Binary(
                                                op,
                                                Box::new(lhs),
                                                Box::new(rhs),
                                            ),
                                        )
                                    }
                                },
                            }
                        } else {
                            spec_parse_bin_op_rhs(
                                toks,
                                p,
                                min_prec,
                                SpecExpression::Binary(op, Box::new(lhs), Box::new(rhs0)),
                            )
                        }
                    }
                },
            },
        }
    }
}

impl Expression {
    /// Parses an identifier expression: a variable reference, or a call when
    /// the identifier is followed by `(`.
    pub fn parse_ident(tokens: &mut Tokens) -> (r: Result<Self, CompileError>)
        requires
            old(tokens).wf(),
        ensures
            final(tokens)@.tokens == old(tokens)@.tokens,
            final(tokens).wf(),
            match r {
                Ok(e) => spec_parse_ident_expr(old(tokens)@.tokens, old(tokens)@.pos) == Some(
                    (e@, final(tokens)@.pos),
                ) && old(tokens)@.pos < final(tokens)@.pos,
                Err(_) => spec_parse_ident_expr(old(tokens)@.tokens, old(tokens)@.pos) is None,
            },
        decreases old(tokens)@.tokens.len() - old(tokens)@.pos, 1int,
    {
        if !tokens.has_more() {
            return Err(CompileError::new_str("expected an identifier, found end of stream"));
        }
        let name = tokens.get().as_ident()?.to_owned();

        let open_paren = match tokens.get_peek() {
            Some(Token::LParen) => true,
            _ => false,
        };
        if !open_paren {
            return Ok(Self::Variable(VariableExpression { name }));
        }
        tokens.add_pos(1);

        let args = Self::parse_call_args(tokens, Vec::new())?;
        Ok(Self::Call(CallExpression { name, args }))
    }

    /// Parses the comma-separated argument list of a call, from just after
    /// the opening `(` through the matching `)`. `args` carries the
    /// arguments already parsed.
    fn parse_call_args(tokens: &mut Tokens, args: Vec<Expression>) -> (r: Result<
        Vec<Expression>,
        CompileError,
    >)
        requires
            old(tokens).wf(),
        ensures
            final(tokens)@.tokens == old(tokens)@.tokens,
            final(tokens).wf(),
            match r {
                Ok(out) => spec_parse_call_args(
                    old(tokens)@.tokens,
                    old(tokens)@.pos,
                    view_exprs(args@),
                ) == Some((view_exprs(out@), final(tokens)@.pos))
                    && old(tokens)@.pos < final(tokens)@.pos,
                Err(_) => spec_parse_call_args(
                    old(tokens)@.tokens,
                    old(tokens)@.pos,
                    view_exprs(args@),
                ) is None,
            },
        decreases old(tokens)@.tokens.len() - old(tokens)@.pos, 4int,
    {
        let mut args = args;
        if !tokens.has_more() {
            return Err(CompileError::new_str("expected an argument or ), found end of stream"));
        }
        if let Token::RParen = tokens.peek() {
            tokens.add_pos(1);
            return Ok(args);
        }

        let e = Self::parse(tokens)?;
        if !tokens.has_more() {
            return Err(CompileError::new_str("expected , or ), found end of stream"));
        }
        if let Token::RParen = tokens.peek() {
            tokens.add_pos(1);
            proof {
                assert(args@.push(e) =~= args@.push(e));
            }
            let ghost old_args = args@;
            args.push(e);
            proof {
                assert(args@.drop_last() =~= old_args);
                assert(view_exprs(args@) == view_exprs(old_args).push(view_expr(args@.last())));
            }
            return Ok(args);
        }
        tokens.get().as_comma()?;
        let ghost old_args = args@;
        args.push(e);
        proof {
            assert(args@.drop_last() =~= old_args);
            assert(view_exprs(args@) == view_exprs(old_args).push(view_expr(args@.last())));
        }
        Self::parse_call_args(tokens, args)
    }

    /// Parses an integer literal as a constant expression.
    pub fn parse_constant(tokens: &mut Tokens) -> (r: Result<Self, CompileError>)
        requires
            old(tokens).wf(),
        ensures
            final(tokens)@.tokens == old(tokens)@.tokens,
            final(tokens).wf(),
            match r {
                Ok(e) => spec_parse_constant(old(tokens)@.tokens, old(tokens)@.pos) == Some(
                    (e@, final(tokens)@.pos),
                ) && old(tokens)@.pos < final(tokens)@.pos,
                Err(_) => spec_parse_constant(old(tokens)@.tokens, old(tokens)@.pos) is None,
            },
    {
        Ok(Expression::Constant(ConstantExpression::from_token_stream(tokens)?))
    }

    /// Parses a parenthesized sub-expression and yields the inner tree.
    pub fn parse_paren(tokens: &mut Tokens) -> (r: Result<Self, CompileError>)
        requires
            old(tokens).wf(),
        ensures
            final(tokens)@.tokens == old(tokens)@.tokens,
            final(tokens).wf(),
            match r {
                Ok(e) => spec_parse_paren(old(tokens)@.tokens, old(tokens)@.pos) == Some(
                    (e@, final(tokens)@.pos),
                ) && old(tokens)@.pos < final(tokens)@.pos,
                Err(_) => spec_parse_paren(old(tokens)@.tokens, old(tokens)@.pos) is None,
            },
        decreases old(tokens)@.tokens.len() - old(tokens)@.pos, 1int,
    {
        if !tokens.has_more() {
            return Err(CompileError::new_str("expected (, found end of stream"));
        }
        tokens.get().as_lparen()?;
        let expression = Self::parse(tokens)?;
        if !tokens.has_more() {
            return Err(CompileError::new_str("expected ), found end of stream"));
        }
        tokens.get().as_rparen()?;
        Ok(expression)
    }

    /// Parses one primary expression, dispatching on the lookahead token.
    pub fn parse_primary(tokens: &mut Tokens) -> (r: Result<Self, CompileError>)
        requires
            old(tokens).wf(),
        ensures
            final(tokens)@.tokens == old(tokens)@.tokens,
            final(tokens).wf(),
            match r {
                Ok(e) => spec_parse_primary(old(tokens)@.tokens, old(tokens)@.pos) == Some(
                    (e@, final(tokens)@.pos),
                ) && old(tokens)@.pos < final(tokens)@.pos,
                Err(_) => spec_parse_primary(old(tokens)@.tokens, old(tokens)@.pos) is None,
            },
        decreases old(tokens)@.tokens.len() - old(tokens)@.pos, 2int,
    {
        if !tokens.has_more() {
            return Err(CompileError::new_str("expected an expression, found end of stream"));
        }
        match tokens.peek() {
            Token::Identifier(_) => Self::parse_ident(tokens),
            Token::UIntLiteral(_) => Self::parse_constant(tokens),
            Token::IntLiteral(_) => Self::parse_constant(tokens),
            Token::LParen => Self::parse_paren(tokens),
            _ => Err(CompileError::new_str("expected an expression")),
        }
    }

    /// Precedence climbing: folds binary operators onto `lhs` while the
    /// lookahead binds at least as tightly as `precedence`.
    pub fn parse_bin_op_rhs(tokens: &mut Tokens, precedence: i32, lhs: Expression) -> (r: Result<
        Self,
        CompileError,
    >)
        requires
            old(tokens).wf(),
        ensures
            final(tokens)@.tokens == old(tokens)@.tokens,
            final(tokens).wf(),
            match r {
                Ok(e) => spec_parse_bin_op_rhs(
                    old(tokens)@.tokens,
                    old(tokens)@.pos,
                    precedence as int,
                    lhs@,
                ) == Some((e@, final(tokens)@.pos)) && old(tokens)@.pos <= final(tokens)@.pos,
                Err(_) => spec_parse_bin_op_rhs(
                    old(tokens)@.tokens,
                    old(tokens)@.pos,
                    precedence as int,
                    lhs@,
                ) is None,
            },
        decreases old(tokens)@.tokens.len() - old(tokens)@.pos, 0int,
    {
        if !tokens.has_more() {
            return Ok(lhs);
        }
        if let Token::Semicolon = tokens.peek() {
            return Ok(lhs);
        }
        let token_precedence = get_token_precedence(tokens.peek());
        if token_precedence < precedence {
            return Ok(lhs);
        }

        let operator = Operator::from_token_stream(tokens)?;
        let rhs = Self::parse_primary(tokens)?;

        let next_precedence = if tokens.has_more() {
            get_token_precedence(tokens.peek())
        } else {
            -1
        };
        if token_precedence < next_precedence {
            let rhs = Self::parse_bin_op_rhs(tokens, token_precedence + 1, rhs)?;
            let folded = Expression::Binary(
                BinaryExpression { operator, lhs: Box::new(lhs), rhs: Box::new(rhs) },
            );
            Self::parse_bin_op_rhs(tokens, precedence, folded)
        } else {
            let folded = Expression::Binary(
                BinaryExpression { operator, lhs: Box::new(lhs), rhs: Box::new(rhs) },
            );
            Self::parse_bin_op_rhs(tokens, precedence, folded)
        }
    }

    /// Parses one full expression: a primary followed by precedence climbing.
    pub fn parse(tokens: &mut Tokens) -> (r: Result<Self, CompileError>)
        requires
            old(tokens).wf(),
        ensures
            final(tokens)@.tokens == old(tokens)@.tokens,
            final(tokens).wf(),
            match r {
                Ok(e) => spec_parse_expr(old(tokens)@.tokens, old(tokens)@.pos) == Some(
                    (e@, final(tokens)@.pos),
                ) && old(tokens)@.pos < final(tokens)@.pos,
                Err(_) => spec_parse_expr(old(tokens)@.tokens, old(tokens)@.pos) is None,
            },
        decreases old(tokens)@.tokens.len() - old(tokens)@.pos, 3int,
    {
        let lhs = Self::parse_primary(tokens)?;
        Self::parse_bin_op_rhs(tokens, 0, lhs)
    }
}

/// Precedence: `a - b * c` parses to `Sub(a, Mul(b, c))` for any three
/// identifiers, because multiplication binds tighter than subtraction in
/// the table.
pub proof fn lemma_precedence_sub_mul(toks: Seq<Token>, a: Seq<char>, b: Seq<char>, c: Seq<char>)
    requires
        toks.len() == 5,
        spec_ident_of(toks[0]) == Some(a),
        toks[1] is Sub,
        spec_ident_of(toks[2]) == Some(b),
        toks[3] is Mul,
        spec_ident_of(toks[4]) == Some(c),
    ensures
        spec_parse_expr(toks, 0) == Some(
            (
                SpecExpression::Binary(
                    Operator::Sub,
                    Box::new(SpecExpression::Variable(a)),
                    Box::new(
                        SpecExpression::Binary(
                            Operator::Mul,
                            Box::new(SpecExpression::Variable(b)),
                            Box::new(SpecExpression::Variable(c)),
                        ),
                    ),
                ),
                5int,
            ),
        ),
{
    reveal_with_fuel(spec_parse_bin_op_rhs, 4);
    assert(spec_parse_primary(toks, 0) == Some((SpecExpression::Variable(a), 1int)));
    assert(spec_parse_primary(toks, 2) == Some((SpecExpression::Variable(b), 3int)));
    assert(spec_parse_primary(toks, 4) == Some((SpecExpression::Variable(c), 5int)));
    assert(spec_token_precedence(toks[1]) == 30);
    assert(spec_token_precedence(toks[3]) == 40);
    let vb = SpecExpression::Variable(b);
    let m = SpecExpression::Binary(
        Operator::Mul,
        Box::new(SpecExpression::Variable(b)),
        Box::new(SpecExpression::Variable(c)),
    );
    assert(spec_parse_bin_op_rhs(toks, 3, 31, vb) == Some((m, 5int)));
    let s = SpecExpression::Binary(Operator::Sub, Box::new(SpecExpression::Variable(a)), Box::new(m));
    assert(spec_parse_bin_op_rhs(toks, 1, 0, SpecExpression::Variable(a)) == Some((s, 5int)));
    assert(spec_parse_expr(toks, 0) == Some((s, 5int)));
}

/// Parenthesization: `(a + b) * c` parses to `Mul(Add(a, b), c)` for any
/// three identifiers; the parentheses group the looser-binding addition.
pub proof fn lemma_paren_grouping(toks: Seq<Token>, a: Seq<char>, b: Seq<char>, c: Seq<char>)
    requires
        toks.len() == 7,
        toks[0] is LParen,
        spec_ident_of(toks[1]) == Some(a),
        toks[2] is Add,
        spec_ident_of(toks[3]) == Some(b),
        toks[4] is RParen,
        toks[5] is Mul,
        spec_ident_of(toks[6]) == Some(c),
    ensures
        spec_parse_expr(toks, 0) == Some(
            (
                SpecExpression::Binary(
                    Operator::Mul,
                    Box::new(
                        SpecExpression::Binary(
                            Operator::Add,
                            Box::new(SpecExpression::Variable(a)),
                            Box::new(SpecExpression::Variable(b)),
                        ),
                    ),
                    Box::new(SpecExpression::Variable(c)),
                ),
                7int,
            ),
        ),
{
    let va = SpecExpression::Variable(a);
    let add = SpecExpression::Binary(
        Operator::Add,
        Box::new(SpecExpression::Variable(a)),
        Box::new(SpecExpression::Variable(b)),
    );
    assert(spec_parse_primary(toks, 1) == Some((va, 2int)));
    assert(spec_parse_primary(toks, 3) == Some((SpecExpression::Variable(b), 4int)));
    assert(spec_parse_bin_op_rhs(toks, 4, 0, add) == Some((add, 4int)));
    assert(spec_parse_bin_op_rhs(toks, 2, 0, va) == Some((add, 4int)));
    assert(spec_parse_expr(toks, 1) == Some((add, 4int)));
    assert(spec_parse_paren(toks, 0) == Some((add, 5int)));
    assert(spec_parse_primary(toks, 0) == Some((add, 5int)));
    assert(spec_parse_primary(toks, 6) == Some((SpecExpression::Variable(c), 7int)));
    let mul = SpecExpression::Binary(
        Operator::Mul,
        Box::new(add),
        Box::new(SpecExpression::Variable(c)),
    );
    assert(spec_parse_bin_op_rhs(toks, 7, 0, mul) == Some((mul, 7int)));
    assert(spec_parse_bin_op_rhs(toks, 5, 0, add) == Some((mul, 7int)));
    assert(spec_parse_expr(toks, 0) == Some((mul, 7int)));
}

/// A bare identifier parses as a variable reference.
pub proof fn lemma_bare_identifier_is_variable(toks: Seq<Token>, name: Seq<char>)
    requires
        toks.len() == 1,
        spec_ident_of(toks[0]) == Some(name),
    ensures
        spec_parse_expr(toks, 0) == Some((SpecExpression::Variable(name), 1int)),
{
}

/// An identifier followed by `()` parses as a call with no arguments.
pub proof fn lemma_empty_call(toks: Seq<Token>, name: Seq<char>)
    requires
        toks.len() == 3,
        spec_ident_of(toks[0]) == Some(name),
        toks[1] is LParen,
        toks[2] is RParen,
    ensures
        spec_parse_expr(toks, 0) == Some(
            (SpecExpression::Call(name, Seq::empty()), 3int),
        ),
{
    let call = SpecExpression::Call(name, Seq::empty());
    assert(spec_parse_call_args(toks, 2, Seq::empty()) == Some((Seq::<SpecExpression>::empty(), 3int)));
    assert(spec_parse_ident_expr(toks, 0) == Some((call, 3int)));
    assert(spec_parse_primary(toks, 0) == Some((call, 3int)));
    assert(spec_parse_bin_op_rhs(toks, 3, 0, call) == Some((call, 3int)));
    assert(spec_parse_expr(toks, 0) == Some((call, 3int)));
}

/// An identifier followed by two comma-separated literal arguments in
/// parentheses parses as a call carrying exactly those two constants,
/// in order.
pub proof fn lemma_two_argument_call(toks: Seq<Token>, name: Seq<char>, v1: u64, v2: u64)
    requires
        toks.len() == 6,
        spec_ident_of(toks[0]) == Some(name),
        toks[1] is LParen,
        toks[2] == Token::UIntLiteral(v1),
        toks[3] is Comma,
        toks[4] == Token::UIntLiteral(v2),
        toks[5] is RParen,
    ensures
        spec_parse_expr(toks, 0) == Some(
            (
                SpecExpression::Call(
                    name,
                    seq![
                        SpecExpression::Constant(ConstantExpressionValue::UInt(v1)),
                        SpecExpression::Constant(ConstantExpressionValue::UInt(v2)),
                    ],
                ),
                6int,
            ),
        ),
{
    let c1 = SpecExpression::Constant(ConstantExpressionValue::UInt(v1));
    let c2 = SpecExpression::Constant(ConstantExpressionValue::UInt(v2));
    assert(spec_parse_primary(toks, 2) == Some((c1, 3int)));
    assert(spec_parse_bin_op_rhs(toks, 3, 0, c1) == Some((c1, 3int)));
    assert(spec_parse_expr(toks, 2) == Some((c1, 3int)));
    assert(spec_parse_primary(toks, 4) == Some((c2, 5int)));
    assert(spec_parse_bin_op_rhs(toks, 5, 0, c2) == Some((c2, 5int)));
    assert(spec_parse_expr(toks, 4) == Some((c2, 5int)));
    assert(spec_parse_call_args(toks, 4, seq![c1]) == Some((seq![c1].push(c2), 6int)));
    assert(spec_parse_call_args(toks, 2, Seq::empty()) == Some(
        (Seq::<SpecExpression>::empty().push(c1).push(c2), 6int),
    ));
    assert(Seq::<SpecExpression>::empty().push(c1) =~= seq![c1]);
    assert(Seq::<SpecExpression>::empty().push(c1).push(c2) =~= seq![c1, c2]);
    let call = SpecExpression::Call(name, seq![c1, c2]);
    assert(spec_parse_ident_expr(toks, 0) == Some((call, 6int)));
    assert(spec_parse_primary(toks, 0) == Some((call, 6int)));
    assert(spec_parse_bin_op_rhs(toks, 6, 0, call) == Some((call, 6int)));
    assert(spec_parse_expr(toks, 0) == Some((call, 6int)));
}

impl FromTokenStream for ConstantExpression {
    type SpecAst = ConstantExpressionValue;

    open spec fn ast(&self) -> ConstantExpressionValue {
        self.value
    }

    open spec fn spec_parse(toks: Seq<Token>, pos: int) -> Option<(ConstantExpressionValue, int)> {
        spec_parse_constant_value(toks, pos)
    }

    fn from_token_stream(tokens: &mut Tokens) -> (r: Result<Self, CompileError>) {
        if !tokens.has_more() {
            return Err(CompileError::new_str("expected a literal, found end of stream"));
        }
        match tokens.get() {
            Token::UIntLiteral(lit) => Ok(Self { value: ConstantExpressionValue::UInt(*lit) }),
            Token::IntLiteral(lit) => Ok(Self { value: ConstantExpressionValue::Int(*lit) }),
            _ => Err(CompileError::new_str("invalid constant token")),
        }
    }
}

impl FromTokenStream for Expression {
    type SpecAst = SpecExpression;

    open spec fn ast(&self) -> SpecExpression {
        self@
    }

    open spec fn spec_parse(toks: Seq<Token>, pos: int) -> Option<(SpecExpression, int)> {
        spec_parse_expr(toks, pos)
    }

    fn from_token_stream(tokens: &mut Tokens) -> (r: Result<Self, CompileError>) {
        Self::parse(tokens)
    }
}

} // verus!
