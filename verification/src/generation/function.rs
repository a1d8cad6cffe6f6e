use crate::generation::type_registry::{spec_registry_get, BackendType, TypeRegistry};
use crate::generation::type_registry::SpecTypeDef;
use crate::generation::{CodeGenError, Context, Module, SpecCodeGenError};
use crate::parser::function::{Function, SpecFunction, SpecFunctionParam};
use vstd::prelude::*;

verus! {

/// A backend function type: the ordered parameter type handles and the
/// return type handle.
#[derive(Debug)]
pub struct FunctionType {
    pub params: Vec<BackendType>,
    pub ret: BackendType,
}

/// Mathematical form of a backend function type.
pub struct SpecFunctionType {
    pub params: Seq<BackendType>,
    pub ret: BackendType,
}

impl View for FunctionType {
    type V = SpecFunctionType;

    open spec fn view(&self) -> SpecFunctionType {
        SpecFunctionType { params: self.params@, ret: self.ret }
    }
}

/// A function registered in a module: its name and its backend type.
#[derive(Debug)]
pub struct DeclaredFunction {
    pub name: String,
    pub fn_type: FunctionType,
}

/// Mathematical form of a registered function.
pub struct SpecDeclaredFunction {
    pub name: Seq<char>,
    pub fn_type: SpecFunctionType,
}

impl View for DeclaredFunction {
    type V = SpecDeclaredFunction;

    open spec fn view(&self) -> SpecDeclaredFunction {
        SpecDeclaredFunction { name: self.name@, fn_type: self.fn_type@ }
    }
}

/// Pointwise mathematical form of a sequence of registered functions.
pub open spec fn view_declared_functions(funcs: Seq<DeclaredFunction>) -> Seq<
    SpecDeclaredFunction,
>
    decreases funcs,
{
    if funcs.len() == 0 {
        Seq::empty()
    } else {
        view_declared_functions(funcs.drop_last()).push(funcs.last()@)
    }
}

/// Resolves the parameter types of a function from index `i` on, in order,
/// against the registry. The first unknown type name fails the whole
/// resolution with an invalid-type error naming it. `acc` carries the
/// handles already resolved.
pub open spec fn spec_resolve_param_types(
    params: Seq<SpecFunctionParam>,
    types: Map<Seq<char>, SpecTypeDef>,
    i: int,
    acc: Seq<BackendType>,
) -> Result<Seq<BackendType>, SpecCodeGenError>
    decreases params.len() - i,
{
    if i >= params.len() || i < 0 {
        Ok(acc)
    } else {
        match spec_registry_get(types, params[i].ty) {
            None => Err(SpecCodeGenError::InvalidType(params[i].ty.name)),
            Some(td) => spec_resolve_param_types(params, types, i + 1, acc.push(td.type_ref)),
        }
    }
}

/// What building a function's backend type means: resolve every parameter
/// type in order, then the return type, each failure naming the offending
/// type.
pub open spec fn spec_make_function_type(
    f: SpecFunction,
    types: Map<Seq<char>, SpecTypeDef>,
) -> Result<SpecFunctionType, SpecCodeGenError> {
    match spec_resolve_param_types(f.params, types, 0, Seq::empty()) {
        Err(e) => Err(e),
        Ok(ps) => match spec_registry_get(types, f.return_type) {
            None => Err(SpecCodeGenError::InvalidType(f.return_type.name)),
            Some(rt) => Ok(SpecFunctionType { params: ps, ret: rt.type_ref }),
        },
    }
}

/// What declaring a function in a module means: its backend type is built
/// and the function is registered under its name, at the end of the list.
pub open spec fn spec_generate_function(
    f: SpecFunction,
    types: Map<Seq<char>, SpecTypeDef>,
    funcs: Seq<SpecDeclaredFunction>,
) -> Result<Seq<SpecDeclaredFunction>, SpecCodeGenError> {
    match spec_make_function_type(f, types) {
        Err(e) => Err(e),
        Ok(ft) => Ok(funcs.push(SpecDeclaredFunction { name: f.name, fn_type: ft })),
    }
}

/// Resolution walks the parameters in order, so the first parameter whose
/// type name is unknown decides the error.
proof fn lemma_resolve_fails_at(
    params: Seq<SpecFunctionParam>,
    types: Map<Seq<char>, SpecTypeDef>,
    k: int,
    acc: Seq<BackendType>,
    i: int,
)
    requires
        0 <= k <= i < params.len(),
        forall|j: int| k <= j < i ==> spec_registry_get(types, params[j].ty) is Some,
        spec_registry_get(types, params[i].ty) is None,
    ensures
        spec_resolve_param_types(params, types, k, acc) == Err::<Seq<BackendType>, _>(
            SpecCodeGenError::InvalidType(params[i].ty.name),
        ),
    decreases i - k,
{
    if k < i {
        let td = spec_registry_get(types, params[k].ty)->Some_0;
        lemma_resolve_fails_at(params, types, k + 1, acc.push(td.type_ref), i);
    }
}

/// When every parameter's type name is known, resolution succeeds.
proof fn lemma_resolve_all_known(
    params: Seq<SpecFunctionParam>,
    types: Map<Seq<char>, SpecTypeDef>,
    k: int,
    acc: Seq<BackendType>,
)
    requires
        0 <= k,
        forall|j: int| k <= j < params.len() ==> spec_registry_get(types, params[j].ty) is Some,
    ensures
        spec_resolve_param_types(params, types, k, acc) is Ok,
    decreases params.len() - k,
{
    if k < params.len() {
        let td = spec_registry_get(types, params[k].ty)->Some_0;
        lemma_resolve_all_known(params, types, k + 1, acc.push(td.type_ref));
    }
}

/// An unknown type name in a parameter position fails the function's
/// declaration with the invalid-type error naming that type; earlier
/// parameters must resolve, since the first unknown name decides.
pub proof fn lemma_unknown_param_type(
    f: SpecFunction,
    types: Map<Seq<char>, SpecTypeDef>,
    funcs: Seq<SpecDeclaredFunction>,
    i: int,
)
    requires
        0 <= i < f.params.len(),
        forall|j: int| 0 <= j < i ==> spec_registry_get(types, f.params[j].ty) is Some,
        spec_registry_get(types, f.params[i].ty) is None,
    ensures
        spec_generate_function(f, types, funcs) == Err::<Seq<SpecDeclaredFunction>, _>(
            SpecCodeGenError::InvalidType(f.params[i].ty.name),
        ),
{
    lemma_resolve_fails_at(f.params, types, 0, Seq::empty(), i);
}

/// An unknown type name in the return position fails the function's
/// declaration with the invalid-type error naming that type, once every
/// parameter resolves.
pub proof fn lemma_unknown_return_type(
    f: SpecFunction,
    types: Map<Seq<char>, SpecTypeDef>,
    funcs: Seq<SpecDeclaredFunction>,
)
    requires
        forall|j: int|
            0 <= j < f.params.len() ==> spec_registry_get(types, f.params[j].ty) is Some,
        spec_registry_get(types, f.return_type) is None,
    ensures
        spec_generate_function(f, types, funcs) == Err::<Seq<SpecDeclaredFunction>, _>(
            SpecCodeGenError::InvalidType(f.return_type.name),
        ),
{
    lemma_resolve_all_known(f.params, types, 0, Seq::empty());
}

/// Builds the backend function type of `function` against the registry.
fn make_function_type(type_registry: &TypeRegistry, function: &Function) -> (r: Result<
    FunctionType,
    CodeGenError,
>)
    ensures
        match r {
            Ok(ft) => spec_make_function_type(function@, type_registry@) == Ok::<
                _,
                SpecCodeGenError,
            >(ft@),
            Err(e) => spec_make_function_type(function@, type_registry@) == Err::<
                SpecFunctionType,
                _,
            >(e@),
        },
{
    let ghost spec_params = function@.params;
    let n = function.params.len();
    let mut args: Vec<BackendType> = Vec::new();
    let mut i: usize = 0;

    proof {
        crate::parser::function::lemma_view_params_len(function.params@);
    }
    while i < n
        invariant
            n == function.params@.len(),
            0 <= i <= n,
            spec_params == crate::parser::function::view_params(function.params@),
            spec_params.len() == n,
            spec_resolve_param_types(spec_params, type_registry@, 0, Seq::empty())
                == spec_resolve_param_types(spec_params, type_registry@, i as int, args@),
        decreases n - i,
    {
        proof {
            crate::parser::function::lemma_view_params_index(function.params@, i as int);
        }
        let arg = &function.params[i];
        match type_registry.get(&arg.ty) {
            Some(td) => {
                args.push(td.type_ref);
            },
            None => {
                return Err(CodeGenError::InvalidType(arg.ty.name.clone()));
            },
        }
        i = i + 1;
    }

    let return_type = match type_registry.get(&function.return_type) {
        Some(td) => td,
        None => {
            return Err(CodeGenError::InvalidType(function.return_type.name.clone()));
        },
    };

    Ok(FunctionType { params: args, ret: return_type.type_ref })
}

/// Declares `function` in `module`: builds its backend type against the
/// registry and registers it under the function's name.
pub fn generate_function(
    context: &Context,
    type_registry: &TypeRegistry,
    module: &mut Module,
    function: &Function,
) -> (r: Result<(), CodeGenError>)
    ensures
        final(module)@.name == old(module)@.name,
        match r {
            Ok(_) => spec_generate_function(function@, type_registry@, old(module)@.functions)
                == Ok::<_, SpecCodeGenError>(final(module)@.functions),
            Err(e) => spec_generate_function(function@, type_registry@, old(module)@.functions)
                == Err::<Seq<SpecDeclaredFunction>, _>(e@) && final(module)@.functions == old(
                module,
            )@.functions,
        },
{
    let function_type = make_function_type(type_registry, function)?;
    let name = function.name.clone();

    let ghost before = module.functions@;
    module.functions.push(DeclaredFunction { name, fn_type: function_type });
    proof {
        assert(module.functions@.drop_last() =~= before);
    }

    Ok(())
}

} // verus!
