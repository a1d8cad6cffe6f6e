use crate::lexer::{SpecTokens, Token, Tokens};
use vstd::prelude::*;

pub mod assignment;
pub mod declaration;
pub mod expression;
pub mod function;
pub mod scope;
pub mod statement;
pub mod types;

use function::{spec_parse_function, Function, SpecFunction};
use statement::{SpecStatement, Statement};

verus! {

/// An error raised while parsing: a single message, surfaced to the driver.
/// No recovery is attempted beyond aborting the enclosing unit.
#[derive(Debug)]
pub struct CompileError {
    message: String,
}

impl View for CompileError {
    type V = Seq<char>;

    closed spec fn view(&self) -> Seq<char> {
        self.message@
    }
}

impl CompileError {
    pub fn new(message: String) -> (r: Self)
        ensures
            r@ == message@,
    {
        Self { message }
    }

    /// Builds an error directly from a message literal.
    pub fn new_str(message: &str) -> (r: Self)
        ensures
            r@ == message@,
    {
        Self { message: message.to_owned() }
    }

    /// The error message, for callers that report the failure.
    pub fn message(&self) -> (r: &str)
        ensures
            r@ == self@,
    {
        self.message.as_str()
    }
}

/// Anything that can be parsed off the front of a token stream.
///
/// The contract is uniform: on success the parsed value is exactly what the
/// implementor's `spec_parse` function yields on the cursor's token sequence,
/// and the cursor stands right after the consumed tokens; on failure
/// `spec_parse` yields nothing. The token sequence itself is never changed.
pub trait FromTokenStream: Sized {
    /// The mathematical value this syntax tree node stands for.
    type SpecAst;

    /// The mathematical value of a parsed node.
    spec fn ast(&self) -> Self::SpecAst;

    /// What parsing this node means on a token sequence, starting at `pos`:
    /// the parsed value and the position one past the consumed tokens,
    /// or `None` when the tokens do not form this node.
    spec fn spec_parse(toks: Seq<Token>, pos: int) -> Option<(Self::SpecAst, int)>;

    fn from_token_stream(tokens: &mut Tokens) -> (r: Result<Self, CompileError>)
        requires
            old(tokens).wf(),
        ensures
            final(tokens)@.tokens == old(tokens)@.tokens,
            final(tokens).wf(),
            match r {
                Ok(v) => Self::spec_parse(old(tokens)@.tokens, old(tokens)@.pos) == Some(
                    (v.ast(), final(tokens)@.pos),
                ) && old(tokens)@.pos < final(tokens)@.pos,
                Err(_) => Self::spec_parse(old(tokens)@.tokens, old(tokens)@.pos) is None,
            };
}

/// A top-level unit of a source file.
#[derive(Debug)]
pub enum Element {
    SourceFile(Vec<Element>),
    Function(Function),
    Statement(Statement),
}

/// Mathematical form of a top-level unit.
pub enum SpecElement {
    SourceFile(Seq<SpecElement>),
    Function(SpecFunction),
    Statement(SpecStatement),
}

/// The mathematical unit an element stands for.
pub open spec fn view_element(e: Element) -> SpecElement
    decreases e,
{
    match e {
        Element::SourceFile(elements) => SpecElement::SourceFile(view_elements(elements@)),
        Element::Function(f) => SpecElement::Function(f@),
        Element::Statement(s) => SpecElement::Statement(s@),
    }
}

/// Pointwise mathematical form of a sequence of elements.
pub open spec fn view_elements(elements: Seq<Element>) -> Seq<SpecElement>
    decreases elements,
{
    if elements.len() == 0 {
        Seq::empty()
    } else {
        view_elements(elements.drop_last()).push(view_element(elements.last()))
    }
}

pub proof fn lemma_view_elements_len(elements: Seq<Element>)
    ensures
        view_elements(elements).len() == elements.len(),
    decreases elements,
{
    if elements.len() > 0 {
        lemma_view_elements_len(elements.drop_last());
    }
}

pub proof fn lemma_view_elements_index(elements: Seq<Element>, i: int)
    requires
        0 <= i < elements.len(),
    ensures
        view_elements(elements)[i] == view_element(elements[i]),
    decreases elements,
{
    lemma_view_elements_len(elements);
    if i < elements.len() - 1 {
        lemma_view_elements_index(elements.drop_last(), i);
    }
}

impl View for Element {
    type V = SpecElement;

    open spec fn view(&self) -> SpecElement {
        view_element(*self)
    }
}

/// The parsed top-level units of one source file, in order.
#[derive(Debug)]
pub struct SourceFile(pub Vec<Element>);

impl View for SourceFile {
    type V = Seq<SpecElement>;

    open spec fn view(&self) -> Seq<SpecElement> {
        view_elements(self.0@)
    }
}

impl SourceFile {
    pub fn new() -> (r: Self)
        ensures
            r@ == Seq::<SpecElement>::empty(),
    {
        SourceFile(Vec::new())
    }
}

/// The states of the top-level scan. Parsing of a unit runs to completion
/// within one step, so the scan itself only ever rests.
pub enum ParsingState {
    Idle,
}

/// A literal's value and apparent signedness, as the tokenizer saw it.
#[derive(Debug)]
pub enum LiteralType {
    UInt(u64),
    Int(i64),
}

/// Grammar of a source file from `pos` to the end of the stream: a sequence
/// of function declarations, each introduced by the `fun` keyword. Any other
/// top-level token is an error, so that the scan always advances.
/// `acc` carries the units already parsed.
pub open spec fn spec_parse_source_file(toks: Seq<Token>, pos: int, acc: Seq<SpecElement>) -> Option<
    (Seq<SpecElement>, int),
>
    decreases toks.len() - pos,
{
    if pos < 0 || pos > toks.len() {
        None
    } else if pos == toks.len() {
        Some((acc, pos))
    } else if toks[pos] is Fun {
        match spec_parse_function(toks, pos) {
            None => None,
            Some((f, p)) => {
                if p <= pos || p > toks.len() {
                    None  // a function always consumes tokens; guards the recursion
                } else {
                    spec_parse_source_file(toks, p, acc.push(SpecElement::Function(f)))
                }
            },
        }
    } else {
        None
    }
}

/// The parser of whole source files: drives the top-level scan and owns the
/// resulting tree.
pub struct Parser {
    root: SourceFile,
}

impl View for Parser {
    type V = Seq<SpecElement>;

    closed spec fn view(&self) -> Seq<SpecElement> {
        self.root@
    }
}

impl Parser {
    /// Consumes elements from `tokens` until the end of the stream.
    /// `root` carries the units already parsed.
    fn parse_elements(tokens: &mut Tokens, root: SourceFile) -> (r: Result<
        SourceFile,
        CompileError,
    >)
        requires
            old(tokens).wf(),
        ensures
            final(tokens)@.tokens == old(tokens)@.tokens,
            final(tokens).wf(),
            match r {
                Ok(out) => spec_parse_source_file(
                    old(tokens)@.tokens,
                    old(tokens)@.pos,
                    root@,
                ) == Some((out@, final(tokens)@.pos)),
                Err(_) => spec_parse_source_file(old(tokens)@.tokens, old(tokens)@.pos, root@)
                    is None,
            },
        decreases old(tokens)@.tokens.len() - old(tokens)@.pos,
    {
        let mut root = root;
        if !tokens.has_more() {
            return Ok(root);
        }
        let is_fun = match tokens.peek() {
            Token::Fun => true,
            _ => false,
        };
        if !is_fun {
            return Err(CompileError::new_str("expected fun at top level"));
        }

        let function = Function::from_token_stream(tokens)?;
        let ghost old_elements = root.0@;
        root.0.push(Element::Function(function));
        proof {
            assert(root.0@.drop_last() =~= old_elements);
            assert(view_elements(root.0@) == view_elements(old_elements).push(
                view_element(root.0@.last()),
            ));
        }
        Self::parse_elements(tokens, root)
    }

    /// Parses a whole source file off the token stream: every top-level unit
    /// must be a function declaration, and the stream is consumed to its end.
    pub fn new(tokens: &mut Tokens) -> (r: Result<Parser, CompileError>)
        requires
            old(tokens).wf(),
        ensures
            final(tokens)@.tokens == old(tokens)@.tokens,
            final(tokens).wf(),
            match r {
                Ok(p) => spec_parse_source_file(
                    old(tokens)@.tokens,
                    old(tokens)@.pos,
                    Seq::empty(),
                ) == Some((p@, final(tokens)@.pos))
                    && final(tokens)@.pos == final(tokens)@.tokens.len(),
                Err(_) => spec_parse_source_file(
                    old(tokens)@.tokens,
                    old(tokens)@.pos,
                    Seq::empty(),
                ) is None,
            },
    {
        let root = Self::parse_elements(tokens, SourceFile::new())?;
        proof {
            lemma_spec_parse_source_file_ends(old(tokens)@.tokens, old(tokens)@.pos, Seq::empty());
        }
        Ok(Self { root })
    }

    /// The parsed source file.
    pub fn root(&self) -> (r: &SourceFile)
        ensures
            r@ == self@,
    {
        &self.root
    }
}

/// Re-parsing is idempotent: what a whole-file parse yields is a function
/// of the token sequence and starting position alone, so two cursors over
/// equal token sequences and positions parse to structurally identical
/// trees. `Parser::new` ties its result to this function of the cursor's
/// view and leaves the token sequence itself unchanged, so no state leaks
/// from one run into the next.
pub proof fn lemma_reparse_identical(t1: SpecTokens, t2: SpecTokens)
    requires
        t1.tokens == t2.tokens,
        t1.pos == t2.pos,
    ensures
        spec_parse_source_file(t1.tokens, t1.pos, Seq::empty()) == spec_parse_source_file(
            t2.tokens,
            t2.pos,
            Seq::empty(),
        ),
{
}

/// A successful top-level scan always stands at the end of the stream.
proof fn lemma_spec_parse_source_file_ends(toks: Seq<Token>, pos: int, acc: Seq<SpecElement>)
    ensures
        match spec_parse_source_file(toks, pos, acc) {
            Some((_, p)) => p == toks.len(),
            None => true,
        },
    decreases toks.len() - pos,
{
    if 0 <= pos < toks.len() && toks[pos] is Fun {
        match spec_parse_function(toks, pos) {
            None => {},
            Some((f, p)) => {
                if pos < p <= toks.len() {
                    lemma_spec_parse_source_file_ends(toks, p, acc.push(SpecElement::Function(f)));
                }
            },
        }
    }
}

} // verus!
