use vstd::prelude::*;

pub mod builder;
pub mod expressions;
pub mod function;
pub mod statement;
pub mod statements;
pub mod type_registry;

use crate::parser::{Element, Parser, SpecElement};
use expressions::{CodeGenExpr, SpecCodeGenExpr};
use function::{generate_function, spec_generate_function, DeclaredFunction, SpecDeclaredFunction};
use type_registry::{spec_initial_types, SpecTypeDef, TypeDef, TypeRegistry};

verus! {

/// The backend context: the owner of every type and module handle of one
/// compilation. Construction is validated at the boundary; in this model it
/// always succeeds.
pub struct Context {}

/// An error raised while generating code for one compilation unit. A single
/// error aborts the unit; the generation context must not be reused past it.
#[derive(Debug)]
pub enum CodeGenError {
    /// The backend collaborator reported a failed or null handle.
    BackendError,
    /// A symbolic type name was not found in the registry.
    InvalidType(String),
    /// An identifier was not bound at generation time.
    InvalidVariable(String),
    /// The operator (or expression form) has no code-generation mapping.
    UnsupportedOperator,
    /// The operands of a binary expression resolved to different types;
    /// carries both resolved types.
    TypesNotEqual(TypeDef, TypeDef),
}

/// Mathematical form of a generation error.
pub enum SpecCodeGenError {
    BackendError,
    InvalidType(Seq<char>),
    InvalidVariable(Seq<char>),
    UnsupportedOperator,
    TypesNotEqual(SpecTypeDef, SpecTypeDef),
}

impl View for CodeGenError {
    type V = SpecCodeGenError;

    open spec fn view(&self) -> SpecCodeGenError {
        match self {
            CodeGenError::BackendError => SpecCodeGenError::BackendError,
            CodeGenError::InvalidType(n) => SpecCodeGenError::InvalidType(n@),
            CodeGenError::InvalidVariable(n) => SpecCodeGenError::InvalidVariable(n@),
            CodeGenError::UnsupportedOperator => SpecCodeGenError::UnsupportedOperator,
            CodeGenError::TypesNotEqual(a, b) => SpecCodeGenError::TypesNotEqual(a@, b@),
        }
    }
}

impl Context {
    /// Acquires the backend context.
    pub fn new() -> (r: Result<Self, CodeGenError>)
        ensures
            r is Ok,
    {
        Ok(Self {  })
    }

    /// Creates an empty module under this context.
    pub fn create_module(&mut self, name: &str) -> (r: Result<Module, CodeGenError>)
        ensures
            match r {
                Ok(m) => m@.name == name@ && m@.functions == Seq::<SpecDeclaredFunction>::empty(),
                Err(_) => false,
            },
    {
        Ok(Module { name: name.to_owned(), functions: Vec::new() })
    }
}

/// A backend module under construction: the functions registered so far,
/// in registration order. Duplicate names are not deduplicated here; the
/// backend's own redefinition behaviour applies.
#[derive(Debug)]
pub struct Module {
    pub name: String,
    pub functions: Vec<DeclaredFunction>,
}

/// Mathematical form of a module.
pub struct SpecModule {
    pub name: Seq<char>,
    pub functions: Seq<SpecDeclaredFunction>,
}

impl View for Module {
    type V = SpecModule;

    open spec fn view(&self) -> SpecModule {
        SpecModule { name: self.name@, functions: function::view_declared_functions(self.functions@) }
    }
}

/// The identifier-to-value binding map of the active generation context.
/// A later binding for the same name overwrites the earlier one; there is
/// no per-scope shadowing.
pub struct VariableBindings {
    entries: Vec<(String, CodeGenExpr)>,
}

/// The name-to-value mapping a binding sequence stands for; the latest
/// entry for a name wins.
pub open spec fn bindings_view(entries: Seq<(String, CodeGenExpr)>) -> Map<
    Seq<char>,
    SpecCodeGenExpr,
>
    decreases entries,
{
    if entries.len() == 0 {
        Map::empty()
    } else {
        bindings_view(entries.drop_last()).insert(entries.last().0@, entries.last().1@)
    }
}

impl View for VariableBindings {
    type V = Map<Seq<char>, SpecCodeGenExpr>;

    closed spec fn view(&self) -> Map<Seq<char>, SpecCodeGenExpr> {
        bindings_view(self.entries@)
    }
}

impl VariableBindings {
    /// An empty binding map.
    pub fn new() -> (r: Self)
        ensures
            r@ == Map::<Seq<char>, SpecCodeGenExpr>::empty(),
    {
        Self { entries: Vec::new() }
    }

    /// Binds `name` to `value`, overwriting any earlier binding of `name`.
    pub fn insert(&mut self, name: String, value: CodeGenExpr)
        ensures
            final(self)@ == old(self)@.insert(name@, value@),
    {
        let ghost before = self.entries@;
        self.entries.push((name, value));
        proof {
            assert(self.entries@.drop_last() =~= before);
        }
    }

    /// The latest binding of a name within the first `n` entries.
    fn get_in<'a>(entries: &'a Vec<(String, CodeGenExpr)>, name: &String, n: usize) -> (r: Option<
        &'a CodeGenExpr,
    >)
        requires
            n <= entries@.len(),
        ensures
            match r {
                Some(e) => bindings_view(entries@.take(n as int)).contains_key(name@)
                    && bindings_view(entries@.take(n as int))[name@] == e@,
                None => !bindings_view(entries@.take(n as int)).contains_key(name@),
            },
        decreases n,
    {
        if n == 0 {
            proof {
                assert(entries@.take(0) =~= Seq::<(String, CodeGenExpr)>::empty());
            }
            None
        } else {
            proof {
                assert(entries@.take(n as int).drop_last() =~= entries@.take(n as int - 1));
                assert(entries@.take(n as int).last() == entries@[n as int - 1]);
            }
            let entry = &entries[n - 1];
            if entry.0 == *name {
                Some(&entry.1)
            } else {
                Self::get_in(entries, name, n - 1)
            }
        }
    }

    /// The value bound to a name, or nothing when the name is unbound.
    pub fn get(&self, name: &String) -> (r: Option<&CodeGenExpr>)
        ensures
            match r {
                Some(e) => self@.contains_key(name@) && self@[name@] == e@,
                None => !self@.contains_key(name@),
            },
    {
        proof {
            assert(self.entries@.take(self.entries@.len() as int) =~= self.entries@);
        }
        let n = self.entries.len();
        Self::get_in(&self.entries, name, n)
    }
}

/// Mathematical state of a generation context: the seeded type registry and
/// the active variable bindings.
pub struct SpecCodeGenContext {
    pub types: Map<Seq<char>, SpecTypeDef>,
    pub variables: Map<Seq<char>, SpecCodeGenExpr>,
}

/// The state one compilation unit is generated under: the backend context,
/// the seeded type registry, and the variable bindings.
pub struct CodeGenContext {
    context: Context,
    pub type_registry: TypeRegistry,
    pub variables: VariableBindings,
}

impl View for CodeGenContext {
    type V = SpecCodeGenContext;

    closed spec fn view(&self) -> SpecCodeGenContext {
        SpecCodeGenContext { types: self.type_registry@, variables: self.variables@ }
    }
}

/// What generating a whole source file means: each function element is
/// declared in the module, in order; other element forms are passed over.
/// A failed declaration aborts the run with its error.
pub open spec fn spec_generate_module(
    elements: Seq<SpecElement>,
    types: Map<Seq<char>, SpecTypeDef>,
    funcs: Seq<SpecDeclaredFunction>,
) -> Result<Seq<SpecDeclaredFunction>, SpecCodeGenError>
    decreases elements,
{
    if elements.len() == 0 {
        Ok(funcs)
    } else {
        match elements[0] {
            SpecElement::Function(f) => match spec_generate_function(f, types, funcs) {
                Err(e) => Err(e),
                Ok(funcs2) => spec_generate_module(elements.drop_first(), types, funcs2),
            },
            _ => spec_generate_module(elements.drop_first(), types, funcs),
        }
    }
}

impl CodeGenContext {
    /// Acquires a backend context and seeds the type registry; the binding
    /// map starts empty.
    pub fn new() -> (r: Result<Self, CodeGenError>)
        ensures
            match r {
                Ok(c) => c@.types == spec_initial_types() && c@.variables == Map::<
                    Seq<char>,
                    SpecCodeGenExpr,
                >::empty(),
                Err(_) => false,
            },
    {
        let context = Context::new()?;
        let type_registry = TypeRegistry::new(&context);

        Ok(Self { context, type_registry, variables: VariableBindings::new() })
    }

    /// Declares every function of the parsed source file in `module`,
    /// in order. The first failure aborts the run and is returned.
    pub fn generate(&mut self, module: &mut Module, parser: &Parser) -> (r: Result<
        (),
        CodeGenError,
    >)
        ensures
            final(self)@ == old(self)@,
            final(module)@.name == old(module)@.name,
            match r {
                Ok(_) => spec_generate_module(parser@, old(self)@.types, old(module)@.functions)
                    == Ok::<_, SpecCodeGenError>(final(module)@.functions),
                Err(e) => spec_generate_module(parser@, old(self)@.types, old(module)@.functions)
                    == Err::<Seq<SpecDeclaredFunction>, _>(e@),
            },
    {
        let source_file = parser.root();

        let n = source_file.0.len();
        let mut i: usize = 0;
        proof {
            assert(parser@.skip(0) =~= parser@);
        }
        while i < n
            invariant
                n == source_file.0@.len(),
                0 <= i <= n,
                parser@ == crate::parser::view_elements(source_file.0@),
                self@ == old(self)@,
                module@.name == old(module)@.name,
                spec_generate_module(parser@, old(self)@.types, old(module)@.functions)
                    == spec_generate_module(
                    parser@.skip(i as int),
                    old(self)@.types,
                    module@.functions,
                ),
            decreases n - i,
        {
            proof {
                crate::parser::lemma_view_elements_len(source_file.0@);
                crate::parser::lemma_view_elements_index(source_file.0@, i as int);
                assert(parser@.skip(i as int).drop_first() =~= parser@.skip(i as int + 1));
                assert(parser@.skip(i as int)[0] == parser@[i as int]);
            }
            match &source_file.0[i] {
                Element::Function(function) => {
                    generate_function(&self.context, &self.type_registry, module, function)?;
                },
                _ => {},
            }
            i = i + 1;
        }
        proof {
            crate::parser::lemma_view_elements_len(source_file.0@);
            assert(parser@.skip(n as int) =~= Seq::<SpecElement>::empty());
        }
        Ok(())
    }

    /// The backend context.
    pub fn context(&self) -> &Context {
        &self.context
    }

    /// The backend context, for operations that mutate it.
    pub fn context_mut(&mut self) -> (r: &mut Context)
        ensures
            final(self)@ == old(self)@,
    {
        &mut self.context
    }
}

} // verus!
