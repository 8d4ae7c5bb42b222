use vstd::prelude::*;

use crate::engine::JSEngine;
use crate::errors::JSRuntimeError;

verus! {

/// A JavaScript runtime. Contexts created in the same runtime can exchange
/// values.
pub struct JSRuntime<E: JSEngine> {
    pub(crate) implementation: E::Runtime,
}

impl<E: JSEngine> JSRuntime<E> {
    /// The engine's runtime behind this value.
    pub closed spec fn handle(&self) -> E::Runtime {
        self.implementation
    }

    /// Creates a runtime; fails when the engine cannot create one.
    pub fn new() -> (res: Result<Self, JSRuntimeError>)
        ensures
            res matches Err(e) ==> e == JSRuntimeError::CouldNotCreateRuntime,
            exists|answer: Result<E::Runtime, JSRuntimeError>|
                #[trigger] call_ensures(E::create_runtime, (), answer) && match answer {
                    Ok(runtime) => res matches Ok(r) && r.handle() == runtime,
                    Err(e) => res == Err::<Self, JSRuntimeError>(e),
                },
    {
        let answer = E::create_runtime();
        let ghost given = answer;
        assert(call_ensures(E::create_runtime, (), given));
        match answer {
            Ok(implementation) => Ok(JSRuntime { implementation }),
            Err(e) => Err(e),
        }
    }

    /// The engine's runtime behind this value.
    pub fn implementation(&self) -> (res: &E::Runtime)
        ensures
            *res == self.handle(),
    {
        &self.implementation
    }

    /// Hands the runtime back to the engine.
    pub fn release(self)
        ensures
            call_ensures(E::release_runtime, (self.handle(),), ()),
    {
        E::release_runtime(self.implementation);
    }
}

} // verus!
