use vstd::prelude::*;

use crate::cstring::{has_nul, is_first_nul, JSCString};
use crate::engine::JSEngine;
use crate::errors::{EsperantoError, EsperantoResult, JSContextError, JSRuntimeError, NulError};
use crate::retain::Retain;
use crate::runtime::JSRuntime;
use crate::util::StoredOrReferenced;
use crate::value::{is_retained_result, JSValue};
use vstd::string::StringSliceAdditionalSpecFns;

verus! {

/// File details to report with code that is evaluated: they show up in stack
/// traces and developer tools.
#[derive(Debug)]
pub struct EvaluateMetadata {
    pub filename: JSCString,
    pub line_number: i32,
}

impl EvaluateMetadata {
    /// Builds the details; fails exactly when the file name holds a NUL byte.
    pub fn new(filename: &str, line_number: i32) -> (res: Result<Self, NulError>)
        ensures
            match res {
                Ok(m) => !has_nul(filename.spec_bytes()) && m.filename@ == filename.spec_bytes()
                    && m.line_number == line_number,
                Err(e) => has_nul(filename.spec_bytes()) && is_first_nul(
                    filename.spec_bytes(),
                    e.nul_position as int,
                ) && e.bytes@ == filename.spec_bytes(),
            },
    {
        match JSCString::new(filename) {
            Ok(filename) => Ok(EvaluateMetadata { filename, line_number }),
            Err(e) => Err(e),
        }
    }
}

/// The environment in which JavaScript is evaluated. It either owns a runtime
/// of its own or lives in a runtime shared with other contexts.
pub struct JSContext<'r, E: JSEngine> {
    pub(crate) implementation: E::Context,
    pub(crate) runtime: StoredOrReferenced<'r, JSRuntime<E>>,
}

impl<'r, E: JSEngine> JSContext<'r, E> {
    /// The engine's context behind this value.
    pub closed spec fn handle(&self) -> E::Context {
        self.implementation
    }

    /// The runtime the context lives in.
    pub closed spec fn runtime(&self) -> JSRuntime<E> {
        self.runtime.target()
    }

    /// Whether the context owns its runtime (rather than sharing one).
    pub closed spec fn owns_runtime(&self) -> bool {
        self.runtime is StoredInternally
    }

    /// `res` is what making a context in `runtime` gives: the engine is asked
    /// for a context in the runtime, and a refusal is a context error; a
    /// context it gives is paired with the runtime (owned when `owns`) and
    /// stored in the engine's context, and when that fails the engine's error
    /// is the result and the context is handed back. Whenever no context
    /// results, a runtime the context was to own is handed back too.
    pub open spec fn is_context_made(runtime: JSRuntime<E>, owns: bool, res: EsperantoResult<Box<Self>>) -> bool {
        exists|answer: Result<E::Context, JSContextError>|
            #[trigger] call_ensures(E::create_context, (&runtime.handle(),), answer) && match answer {
                Err(e) => res == Err::<Box<Self>, EsperantoError>(EsperantoError::ContextError(e))
                    && (owns ==> call_ensures(E::release_runtime, (runtime.handle(),), ())),
                Ok(handle) => exists|context: Self, stored: EsperantoResult<()>|
                    #[trigger] call_ensures(E::set_private_data, (handle, &context), stored)
                        && context.handle() == handle && context.runtime() == runtime
                        && context.owns_runtime() == owns && match stored {
                        Err(e) => res == Err::<Box<Self>, EsperantoError>(e) && call_ensures(
                            E::release_context,
                            (handle,),
                            (),
                        ) && (owns ==> call_ensures(E::release_runtime, (runtime.handle(),), ())),
                        Ok(_) => res matches Ok(made) && *made == context,
                    },
            }
    }

    fn create_and_store_in_implementation(runtime: StoredOrReferenced<'r, JSRuntime<E>>) -> (res: EsperantoResult<
        Box<Self>,
    >)
        ensures
            res matches Ok(c) ==> c.runtime() == runtime.target() && c.owns_runtime()
                == (runtime is StoredInternally),
            Self::is_context_made(runtime.target(), runtime is StoredInternally, res),
    {
        let created = E::create_context(runtime.get().implementation());
        let ghost created_answer = created;
        assert(call_ensures(E::create_context, (&runtime.target().handle(),), created_answer));
        match created {
            Ok(implementation) => {
                let boxed = Box::new(JSContext { implementation, runtime });
                let stored = E::set_private_data(implementation, &*boxed);
                assert(call_ensures(E::set_private_data, (implementation, &*boxed), stored));
                match stored {
                    Ok(()) => Ok(boxed),
                    Err(e) => {
                        (*boxed).release();
                        Err(e)
                    },
                }
            },
            Err(e) => {
                match runtime {
                    StoredOrReferenced::StoredInternally(owned) => owned.release(),
                    StoredOrReferenced::Referenced(_) => {},
                }
                Err(EsperantoError::ContextError(e))
            },
        }
    }

    /// Creates a context in a runtime of its own. A runtime that cannot be
    /// created gives a runtime error.
    pub fn new() -> (res: EsperantoResult<Box<Self>>)
        ensures
            res matches Ok(c) ==> c.owns_runtime(),
            exists|answer: Result<E::Runtime, JSRuntimeError>|
                #[trigger] call_ensures(E::create_runtime, (), answer) && (answer matches Err(e)
                    ==> res == Err::<Box<Self>, EsperantoError>(EsperantoError::RuntimeError(e)))
                    && (answer matches Ok(made) ==> exists|runtime: JSRuntime<E>|
                    runtime.handle() == made && #[trigger] Self::is_context_made(runtime, true, res)),
    {
        match JSRuntime::<E>::new() {
            Ok(runtime) => Self::create_and_store_in_implementation(StoredOrReferenced::from_box(Box::new(runtime))),
            Err(e) => Err(EsperantoError::RuntimeError(e)),
        }
    }

    /// Creates a context in an existing runtime, so that it can exchange values
    /// with the other contexts of that runtime.
    pub fn new_in_runtime(in_runtime: &'r JSRuntime<E>) -> (res: EsperantoResult<Box<Self>>)
        ensures
            res matches Ok(c) ==> c.runtime() == *in_runtime && !c.owns_runtime(),
            Self::is_context_made(*in_runtime, false, res),
    {
        Self::create_and_store_in_implementation(StoredOrReferenced::from_ref(in_runtime))
    }

    /// Evaluates a script. A script holding a NUL byte cannot be handed to the
    /// engine and is refused as unparsable; otherwise the engine decides, and
    /// the value it gives back belongs to this context.
    pub fn evaluate<'c>(&'c self, script: &str, metadata: Option<&EvaluateMetadata>) -> (res:
        EsperantoResult<Retain<JSValue<'r, 'c, E>>>)
        ensures
            has_nul(script.spec_bytes()) ==> res == Err::<Retain<JSValue<'r, 'c, E>>, EsperantoError>(
                EsperantoError::ContextError(JSContextError::CouldNotParseScript),
            ),
            !has_nul(script.spec_bytes()) ==> exists|c: JSCString, raw: EsperantoResult<E::Value>|
                c@ == script.spec_bytes() && #[trigger] call_ensures(
                    E::evaluate,
                    (self.handle(), &c, metadata),
                    raw,
                ) && is_retained_result(raw, res, self.handle()),
            res matches Ok(v) ==> v.retained().context_handle() == self.handle(),
    {
        let script = match JSCString::new(script) {
            Ok(s) => s,
            Err(_) => {
                return Err(EsperantoError::ContextError(JSContextError::CouldNotParseScript));
            },
        };
        let raw = E::evaluate(self.implementation, &script, metadata);
        let ghost answer = raw;
        let res = JSValue::retained_result(raw, self);
        assert(call_ensures(E::evaluate, (self.handle(), &script, metadata), answer));
        res
    }

    /// The engine's context behind this value.
    pub fn implementation(&self) -> (res: E::Context)
        ensures
            res == self.handle(),
    {
        self.implementation
    }

    /// Runs the engine's garbage collector.
    pub fn garbage_collect(&self)
        ensures
            call_ensures(E::garbage_collect, (self.handle(),), ()),
    {
        E::garbage_collect(self.implementation)
    }

    /// The global object of this context, to which properties can be added to
    /// make them visible to all code run in it.
    pub fn global_object<'c>(&'c self) -> (res: Retain<JSValue<'r, 'c, E>>)
        ensures
            res.retained().context_handle() == self.handle(),
            call_ensures(E::global_object, (self.handle(),), res.retained().raw()),
    {
        let raw = E::global_object(self.implementation);
        Retain::wrap(JSValue::wrap_internal(raw, self))
    }

    /// The runtime the context lives in.
    pub fn get_runtime(&self) -> (res: &JSRuntime<E>)
        ensures
            *res == self.runtime(),
    {
        self.runtime.get()
    }

    /// Hands the context back to the engine, and with it the runtime it owns.
    pub fn release(self)
        ensures
            call_ensures(E::release_context, (self.handle(),), ()),
            self.owns_runtime() ==> call_ensures(E::release_runtime, (self.runtime().handle(),), ()),
    {
        E::release_context(self.implementation);
        match self.runtime {
            StoredOrReferenced::StoredInternally(owned) => owned.release(),
            StoredOrReferenced::Referenced(_) => {},
        }
    }
}

} // verus!
