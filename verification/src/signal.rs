//! Cleanup to run when the process is told to end.
use vstd::prelude::*;

verus! {

/// One cleanup action.
pub struct DeferFunction<F> {
    pub func: F,
}

/// The cleanup actions registered so far, oldest first.
pub struct DeferFunctions<F> {
    pub functions: Vec<DeferFunction<F>>,
}

impl<F> DeferFunctions<F> {
    /// A registry with nothing in it.
    pub fn new() -> (r: DeferFunctions<F>)
        ensures
            r.functions@ == Seq::<DeferFunction<F>>::empty(),
    {
        DeferFunctions { functions: Vec::new() }
    }
}

/// Registers a cleanup action behind those registered before.
pub fn register_defer_function<F>(registry: &mut DeferFunctions<F>, func: DeferFunction<F>)
    ensures
        final(registry).functions@ == old(registry).functions@.push(func),
{
    registry.functions.push(func);
}

/// The registered actions, in the order of registration, for the caller to run one
/// after the other. The registry is left as it is: the actions stay registered.
pub fn call_defer_functions<F>(registry: &DeferFunctions<F>) -> (r: &Vec<DeferFunction<F>>)
    ensures
        r@ == registry.functions@,
{
    &registry.functions
}

} // verus!
