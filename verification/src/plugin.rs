//! The entry-point synthesizer: given the signature of a worker function, pick
//! the parameter that carries the module configuration — the first typed
//! parameter whose type is not literally the identifier `Recipe` — and hand
//! back what the generated foreign-callable wrapper is spliced from. A worker
//! without such a parameter is rejected, and generation stops.

use vstd::prelude::*;
use vstd::string::*;

verus! {

/// The type of one parameter, as the generator sees it: its token text, and
/// whether it is a plain path of a single identifier (only such a type can be
/// the literal `Recipe`).
#[derive(Debug)]
pub struct ParamType {
    pub tokens: String,
    pub single_ident: bool,
}

/// One parameter of the worker function: a receiver, or a typed parameter.
#[derive(Debug)]
pub enum FnParam {
    Receiver,
    Typed(ParamType),
}

/// The signature of the worker function: its name and its parameters, in
/// declaration order.
#[derive(Debug)]
pub struct WorkerFn {
    pub name: String,
    pub params: Vec<FnParam>,
}

/// What the generated `BuildModule` wrapper is spliced from: the worker's
/// name, and the type its module payload is decoded into.
#[derive(Debug)]
pub struct PluginEntry {
    pub worker_name: String,
    pub module_type: ParamType,
}

/// Why generation was rejected.
#[derive(Debug, PartialEq, Eq)]
pub enum GenError {
    /// No typed parameter other than the recipe parameter is present.
    MissingModuleParam,
}

/// A type is the recipe type exactly when it is a plain path of the single
/// identifier `Recipe`.
pub open spec fn is_recipe_spec(t: ParamType) -> bool {
    t.single_ident && t.tokens@ == "Recipe"@
}

/// A parameter can carry the module configuration exactly when it is typed
/// and its type is not the recipe type.
pub open spec fn is_module_param(p: FnParam) -> bool {
    p matches FnParam::Typed(t) && !is_recipe_spec(t)
}

/// Whether this type is the fixed recipe type.
pub fn is_recipe_type(t: &ParamType) -> (r: bool)
    ensures
        r == is_recipe_spec(*t),
{
    t.single_ident && t.tokens == String::from_str("Recipe")
}

fn copy_param(t: &ParamType) -> (r: ParamType)
    ensures
        r == *t,
{
    ParamType { tokens: t.tokens.clone(), single_ident: t.single_ident }
}

/// Inspects the worker's signature and picks what the foreign-callable
/// wrapper is generated from: the first typed non-recipe parameter gives the
/// module configuration type; a worker without one is rejected.
pub fn build_plugin(f: &WorkerFn) -> (r: Result<PluginEntry, GenError>)
    ensures
        r is Ok <==> exists|i: int|
            0 <= i < f.params@.len() && #[trigger] is_module_param(f.params@[i]),
        r matches Ok(entry) ==> ({
            &&& entry.worker_name == f.name
            &&& exists|i: int|
                {
                    &&& 0 <= i < f.params@.len()
                    &&& #[trigger] is_module_param(f.params@[i])
                    &&& forall|k: int| 0 <= k < i ==> !(#[trigger] is_module_param(f.params@[k]))
                    &&& f.params@[i] == FnParam::Typed(entry.module_type)
                }
        }),
        r matches Err(e) ==> e == GenError::MissingModuleParam,
{
    let mut idx: usize = 0;
    while idx < f.params.len()
        invariant
            idx <= f.params@.len(),
            forall|k: int| 0 <= k < idx ==> !(#[trigger] is_module_param(f.params@[k])),
        decreases f.params@.len() - idx,
    {
        match &f.params[idx] {
            FnParam::Typed(t) => {
                if !is_recipe_type(t) {
                    proof {
                        assert(is_module_param(f.params@[idx as int]));
                    }
                    return Ok(
                        PluginEntry { worker_name: f.name.clone(), module_type: copy_param(t) },
                    );
                }
            },
            FnParam::Receiver => {},
        }
        idx = idx + 1;
    }
    Err(GenError::MissingModuleParam)
}

} // verus!
