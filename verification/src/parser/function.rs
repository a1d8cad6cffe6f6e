use crate::lexer::{spec_ident_of, Token, Tokens};
use crate::parser::scope::{spec_parse_scope, Scope, SpecScope};
use crate::parser::types::{spec_parse_type, spec_void_type, SpecType, Type};
use crate::parser::{CompileError, FromTokenStream};
use vstd::prelude::*;

verus! {

/// A function declaration: name, parameters in order, the annotated return
/// type (the void sentinel when the annotation is absent), and an optional
/// body. A function without a body is a forward declaration.
#[derive(Debug)]
pub struct Function {
    pub name: String,
    pub return_type: Type,
    pub params: Vec<FunctionParam>,
    pub body: Option<Scope>,
}

/// One function parameter: its name and its symbolic type.
#[derive(Debug)]
pub struct FunctionParam {
    pub name: String,
    pub ty: Type,
}

/// Mathematical form of a function declaration.
pub struct SpecFunction {
    pub name: Seq<char>,
    pub return_type: SpecType,
    pub params: Seq<SpecFunctionParam>,
    pub body: Option<SpecScope>,
}

/// Mathematical form of a function parameter.
pub struct SpecFunctionParam {
    pub name: Seq<char>,
    pub ty: SpecType,
}

impl View for FunctionParam {
    type V = SpecFunctionParam;

    open spec fn view(&self) -> SpecFunctionParam {
        SpecFunctionParam { name: self.name@, ty: self.ty@ }
    }
}

/// Pointwise mathematical form of a parameter list.
pub open spec fn view_params(params: Seq<FunctionParam>) -> Seq<SpecFunctionParam>
    decreases params,
{
    if params.len() == 0 {
        Seq::empty()
    } else {
        view_params(params.drop_last()).push(params.last()@)
    }
}

pub proof fn lemma_view_params_len(params: Seq<FunctionParam>)
    ensures
        view_params(params).len() == params.len(),
    decreases params,
{
    if params.len() > 0 {
        lemma_view_params_len(params.drop_last());
    }
}

pub proof fn lemma_view_params_index(params: Seq<FunctionParam>, i: int)
    requires
        0 <= i < params.len(),
    ensures
        view_params(params)[i] == params[i]@,
    decreases params,
{
    lemma_view_params_len(params);
    if i < params.len() - 1 {
        lemma_view_params_index(params.drop_last(), i);
    }
}

impl View for Function {
    type V = SpecFunction;

    open spec fn view(&self) -> SpecFunction {
        SpecFunction {
            name: self.name@,
            return_type: self.return_type@,
            params: view_params(self.params@),
            body: match self.body {
                Some(sc) => Some(sc@),
                None => None,
            },
        }
    }
}

/// Grammar of one parameter: an identifier, a mandatory `:`, a type, and an
/// optional trailing comma (consumed when present; a further token must
/// follow the type, as the parameter list always ends with `)`).
pub open spec fn spec_parse_function_param(toks: Seq<Token>, pos: int) -> Option<
    (SpecFunctionParam, int),
> {
    if pos < 0 || pos >= toks.len() {
        None
    } else {
        match spec_ident_of(toks[pos]) {
            None => None,
            Some(name) => {
                if pos + 1 >= toks.len() || !(toks[pos + 1] is DoubleColon) {
                    None
                } else {
                    match spec_parse_type(toks, pos + 2) {
                        None => None,
                        Some((ty, p)) => {
                            if p >= toks.len() {
                                None
                            } else if toks[p] is Comma {
                                Some((SpecFunctionParam { name, ty }, p + 1))
                            } else {
                                Some((SpecFunctionParam { name, ty }, p))
                            }
                        },
                    }
                }
            },
        }
    }
}

/// Grammar of a parameter list from just after the opening `(`: parameters
/// until the lookahead is `)`, which is then consumed. `acc` carries the
/// parameters already parsed.
pub open spec fn spec_parse_function_params(
    toks: Seq<Token>,
    pos: int,
    acc: Seq<SpecFunctionParam>,
) -> Option<(Seq<SpecFunctionParam>, int)>
    decreases toks.len() - pos,
{
    if pos < 0 || pos >= toks.len() {
        None
    } else if toks[pos] is RParen {
        Some((acc, pos + 1))
    } else {
        match spec_parse_function_param(toks, pos) {
            None => None,
            Some((prm, p)) => {
                if p <= pos || p > toks.len() {
                    None  // a parameter always consumes tokens; guards the recursion
                } else {
                    spec_parse_function_params(toks, p, acc.push(prm))
                }
            },
        }
    }
}

/// Grammar of a function declaration: the introducing keyword (skipped,
/// the caller has inspected it), a name, `(`, parameters, `)`, an optional
/// `: Type` return annotation defaulting to the void sentinel, and an
/// optional brace-delimited body.
pub open spec fn spec_parse_function(toks: Seq<Token>, pos: int) -> Option<(SpecFunction, int)> {
    if pos < 0 || pos >= toks.len() || pos + 1 >= toks.len() {
        None
    } else {
        match spec_ident_of(toks[pos + 1]) {
            None => None,
            Some(name) => {
                if pos + 2 >= toks.len() || !(toks[pos + 2] is LParen) {
                    None
                } else {
                    match spec_parse_function_params(toks, pos + 3, Seq::empty()) {
                        None => None,
                        Some((params, p)) => spec_parse_function_tail(toks, p, name, params),
                    }
                }
            },
        }
    }
}

/// The tail of a function declaration after the parameter list: the optional
/// return annotation and the optional body.
pub open spec fn spec_parse_function_tail(
    toks: Seq<Token>,
    pos: int,
    name: Seq<char>,
    params: Seq<SpecFunctionParam>,
) -> Option<(SpecFunction, int)> {
    if pos < 0 || pos > toks.len() {
        None
    } else if pos < toks.len() && toks[pos] is DoubleColon {
        match spec_parse_type(toks, pos + 1) {
            None => None,
            Some((rt, p)) => spec_parse_function_body(toks, p, name, rt, params),
        }
    } else {
        spec_parse_function_body(toks, pos, name, spec_void_type(), params)
    }
}

/// The optional body of a function declaration: a scope when `{` follows,
/// otherwise a forward declaration ending right here.
pub open spec fn spec_parse_function_body(
    toks: Seq<Token>,
    pos: int,
    name: Seq<char>,
    return_type: SpecType,
    params: Seq<SpecFunctionParam>,
) -> Option<(SpecFunction, int)> {
    if pos < 0 || pos > toks.len() {
        None
    } else if pos < toks.len() && toks[pos] is LBrace {
        match spec_parse_scope(toks, pos) {
            None => None,
            Some((sc, p)) => Some((SpecFunction { name, return_type, params, body: Some(sc) }, p)),
        }
    } else {
        Some((SpecFunction { name, return_type, params, body: None }, pos))
    }
}

/// Any token sequence spelling `fun f() {}` parses to one function with
/// that name, no parameters, the void return type, and an empty body scope.
pub proof fn lemma_empty_function(toks: Seq<Token>, name: Seq<char>)
    requires
        toks.len() == 6,
        toks[0] is Fun,
        spec_ident_of(toks[1]) == Some(name),
        toks[2] is LParen,
        toks[3] is RParen,
        toks[4] is LBrace,
        toks[5] is RBrace,
    ensures
        spec_parse_function(toks, 0) == Some(
            (
                SpecFunction {
                    name,
                    return_type: spec_void_type(),
                    params: Seq::empty(),
                    body: Some(SpecScope { elements: Seq::empty() }),
                },
                6int,
            ),
        ),
{
    assert(spec_parse_function_params(toks, 3, Seq::empty()) == Some(
        (Seq::<SpecFunctionParam>::empty(), 4int),
    ));
    assert(crate::parser::scope::spec_parse_statements(toks, 5, Seq::empty()) == Some(
        (Seq::<crate::parser::statement::SpecStatement>::empty(), 6int),
    ));
    assert(crate::parser::scope::spec_parse_scope(toks, 4) == Some(
        (SpecScope { elements: Seq::empty() }, 6int),
    ));
}

/// Whether the tokens from `pos` up to the closing parenthesis at `end`
/// spell the parameter list `ps` in comma-separated form: `name : type`
/// for each parameter, the type with its `*` marker when it is a pointer,
/// a comma between any two parameters and none after the last.
pub open spec fn spec_params_encoding(
    toks: Seq<Token>,
    pos: int,
    end: int,
    ps: Seq<SpecFunctionParam>,
) -> bool
    decreases ps.len(),
{
    if ps.len() == 0 {
        pos == end
    } else {
        let w: int = if ps[0].ty.is_pointer {
            4
        } else {
            3
        };
        &&& 0 <= pos
        &&& pos + w <= end
        &&& spec_ident_of(toks[pos]) == Some(ps[0].name)
        &&& toks[pos + 1] is DoubleColon
        &&& if ps[0].ty.is_pointer {
            toks[pos + 2] is Mul && spec_ident_of(toks[pos + 3]) == Some(ps[0].ty.name)
        } else {
            spec_ident_of(toks[pos + 2]) == Some(ps[0].ty.name)
        }
        &&& if ps.len() == 1 {
            pos + w == end
        } else {
            toks[pos + w] is Comma && spec_params_encoding(toks, pos + w + 1, end, ps.drop_first())
        }
    }
}

/// Parameter order and content are preserved: parsing a parameter list that
/// spells `ps` appends exactly `ps`, in declaration order, to the
/// parameters parsed so far, and stops right after the closing parenthesis.
pub proof fn lemma_params_preserved(
    toks: Seq<Token>,
    pos: int,
    end: int,
    ps: Seq<SpecFunctionParam>,
    acc: Seq<SpecFunctionParam>,
)
    requires
        spec_params_encoding(toks, pos, end, ps),
        0 <= pos,
        end < toks.len(),
        toks[end] is RParen,
    ensures
        spec_parse_function_params(toks, pos, acc) == Some((acc + ps, end + 1)),
    decreases ps.len(),
{
    if ps.len() == 0 {
        assert(acc + ps =~= acc);
    } else {
        let w: int = if ps[0].ty.is_pointer {
            4
        } else {
            3
        };
        let prm = SpecFunctionParam {
            name: ps[0].name,
            ty: SpecType { name: ps[0].ty.name, is_pointer: ps[0].ty.is_pointer },
        };
        assert(prm == ps[0]);
        assert(spec_parse_type(toks, pos + 2) == Some((ps[0].ty, pos + w)));
        if ps.len() == 1 {
            assert(spec_parse_function_param(toks, pos) == Some((prm, pos + w)));
            assert(spec_parse_function_params(toks, pos + w, acc.push(prm)) == Some(
                (acc.push(prm), end + 1),
            ));
            assert(acc.push(prm) =~= acc + ps);
        } else {
            assert(spec_parse_function_param(toks, pos) == Some((prm, pos + w + 1)));
            lemma_params_preserved(toks, pos + w + 1, end, ps.drop_first(), acc.push(prm));
            assert(acc.push(prm) + ps.drop_first() =~= acc + ps);
        }
    }
}

/// Parameter preservation at the function level: a declaration
/// `fun f(n1: t1, ..., nk: tk)` parses to a function whose parameter
/// sequence is exactly the declared (name, type) pairs, in order.
pub proof fn lemma_function_params_preserved(
    toks: Seq<Token>,
    name: Seq<char>,
    ps: Seq<SpecFunctionParam>,
)
    requires
        toks.len() >= 4,
        toks[0] is Fun,
        spec_ident_of(toks[1]) == Some(name),
        toks[2] is LParen,
        spec_params_encoding(toks, 3, toks.len() - 1, ps),
        toks[toks.len() - 1] is RParen,
    ensures
        spec_parse_function(toks, 0) == Some(
            (
                SpecFunction {
                    name,
                    return_type: spec_void_type(),
                    params: ps,
                    body: None,
                },
                toks.len() as int,
            ),
        ),
{
    lemma_params_preserved(toks, 3, toks.len() - 1, ps, Seq::empty());
    assert(Seq::<SpecFunctionParam>::empty() + ps =~= ps);
}

impl Function {
    /// Parses parameters until the closing `)`, which is consumed.
    /// `params` carries the parameters already parsed.
    fn parse_params(tokens: &mut Tokens, params: Vec<FunctionParam>) -> (r: Result<
        Vec<FunctionParam>,
        CompileError,
    >)
        requires
            old(tokens).wf(),
        ensures
            final(tokens)@.tokens == old(tokens)@.tokens,
            final(tokens).wf(),
            match r {
                Ok(out) => spec_parse_function_params(
                    old(tokens)@.tokens,
                    old(tokens)@.pos,
                    view_params(params@),
                ) == Some((view_params(out@), final(tokens)@.pos))
                    && old(tokens)@.pos < final(tokens)@.pos,
                Err(_) => spec_parse_function_params(
                    old(tokens)@.tokens,
                    old(tokens)@.pos,
                    view_params(params@),
                ) is None,
            },
        decreases old(tokens)@.tokens.len() - old(tokens)@.pos,
    {
        let mut params = params;
        if !tokens.has_more() {
            return Err(CompileError::new_str("expected a parameter or ), found end of stream"));
        }
        if let Token::RParen = tokens.peek() {
            tokens.add_pos(1);
            return Ok(params);
        }

        let prm = FunctionParam::from_token_stream(tokens)?;
        let ghost old_params = params@;
        params.push(prm);
        proof {
            assert(params@.drop_last() =~= old_params);
            assert(view_params(params@) == view_params(old_params).push(params@.last()@));
        }
        Self::parse_params(tokens, params)
    }
}

impl FromTokenStream for Function {
    type SpecAst = SpecFunction;

    open spec fn ast(&self) -> SpecFunction {
        self@
    }

    open spec fn spec_parse(toks: Seq<Token>, pos: int) -> Option<(SpecFunction, int)> {
        spec_parse_function(toks, pos)
    }

    fn from_token_stream(tokens: &mut Tokens) -> (r: Result<Self, CompileError>) {
        if !tokens.has_more() {
            return Err(CompileError::new_str("expected a function, found end of stream"));
        }
        // The introducing keyword was inspected by the caller.
        tokens.add_pos(1);

        let mut return_type = Type::void();

        if !tokens.has_more() {
            return Err(CompileError::new_str("expected a function name, found end of stream"));
        }
        let name = tokens.get().as_ident()?.to_owned();

        if !tokens.has_more() {
            return Err(CompileError::new_str("expected (, found end of stream"));
        }
        tokens.get().as_lparen()?;

        let params = Self::parse_params(tokens, Vec::new())?;

        let colon = match tokens.get_peek() {
            Some(Token::DoubleColon) => true,
            _ => false,
        };
        if colon {
            tokens.add_pos(1);
            return_type = Type::from_token_stream(tokens)?;
        }

        let mut body = None;

        let brace = match tokens.get_peek() {
            Some(Token::LBrace) => true,
            _ => false,
        };
        if brace {
            body = Some(Scope::from_token_stream(tokens)?);
        }

        Ok(Self { name, return_type, params, body })
    }
}

impl FromTokenStream for FunctionParam {
    type SpecAst = SpecFunctionParam;

    open spec fn ast(&self) -> SpecFunctionParam {
        self@
    }

    open spec fn spec_parse(toks: Seq<Token>, pos: int) -> Option<(SpecFunctionParam, int)> {
        spec_parse_function_param(toks, pos)
    }

    fn from_token_stream(tokens: &mut Tokens) -> (r: Result<Self, CompileError>) {
        if !tokens.has_more() {
            return Err(CompileError::new_str("expected a parameter name, found end of stream"));
        }
        let name = tokens.get().as_ident()?.to_owned();
        if !tokens.has_more() {
            return Err(CompileError::new_str("expected :, found end of stream"));
        }
        tokens.get().as_double_colon()?;

        let ty = Type::from_token_stream(tokens)?;

        let comma = match tokens.try_peek()? {
            Token::Comma => true,
            _ => false,
        };
        if comma {
            tokens.add_pos(1);
        }

        Ok(Self { name, ty })
    }
}

} // verus!
