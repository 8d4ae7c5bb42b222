use vstd::prelude::*;

use crate::context::{EvaluateMetadata, JSContext};
use crate::cstring::JSCString;
use crate::errors::{EsperantoResult, JSContextError, JSRuntimeError};

verus! {

/// The operations that a JavaScript engine provides to this library. The
/// library's logic is written once against this trait; each engine supplies an
/// implementation that talks to the engine itself.
///
/// Values handed out by `evaluate`, `global_object`, `retain`, `from_cstring`,
/// `from_bool`, `new_error`, `undefined`, `get_property`, `new_function`,
/// `call_as_function` and `call_as_constructor` are counted references that
/// the caller gives back through `release`.
pub trait JSEngine: Sized {
    /// A runtime: a heap shared by the contexts created in it.
    type Runtime;

    /// A handle to one context.
    type Context: Copy;

    /// A handle to one value inside a context.
    type Value: Copy;

    fn create_runtime() -> Result<Self::Runtime, JSRuntimeError>;

    fn release_runtime(runtime: Self::Runtime);

    fn create_context(runtime: &Self::Runtime) -> Result<Self::Context, JSContextError>;

    fn evaluate(
        ctx: Self::Context,
        script: &JSCString,
        metadata: Option<&EvaluateMetadata>,
    ) -> EsperantoResult<Self::Value>;

    /// Lets the engine find the library's context again from its own handle,
    /// as native callbacks need to.
    fn set_private_data<'r>(ctx: Self::Context, context: &JSContext<'r, Self>) -> EsperantoResult<()>;

    fn release_context(ctx: Self::Context);

    fn global_object(ctx: Self::Context) -> Self::Value;

    fn garbage_collect(ctx: Self::Context);

    fn retain(value: Self::Value, ctx: Self::Context) -> Self::Value;

    fn release(value: Self::Value, ctx: Self::Context);

    /// The text of a value as the engine converts it, without a terminating NUL.
    fn to_cstring(value: Self::Value, ctx: Self::Context) -> EsperantoResult<Vec<u8>>;

    fn from_cstring(text: &JSCString, ctx: Self::Context) -> Self::Value;

    fn is_string(value: Self::Value, ctx: Self::Context) -> bool;

    fn to_bool(value: Self::Value, ctx: Self::Context) -> EsperantoResult<bool>;

    fn from_bool(b: bool, ctx: Self::Context) -> EsperantoResult<Self::Value>;

    fn new_error(name: &JSCString, message: &JSCString, ctx: Self::Context) -> Self::Value;

    fn is_error(value: Self::Value, ctx: Self::Context) -> EsperantoResult<bool>;

    fn undefined(ctx: Self::Context) -> Self::Value;

    fn set_property(
        target: Self::Value,
        ctx: Self::Context,
        name: &JSCString,
        new_value: Self::Value,
    ) -> EsperantoResult<()>;

    fn get_property(
        target: Self::Value,
        ctx: Self::Context,
        name: &JSCString,
    ) -> EsperantoResult<Self::Value>;

    fn delete_property(
        target: Self::Value,
        ctx: Self::Context,
        name: &JSCString,
    ) -> EsperantoResult<bool>;

    fn new_function(
        body: &JSCString,
        argument_names: &Vec<JSCString>,
        ctx: Self::Context,
    ) -> EsperantoResult<Self::Value>;

    fn call_as_function(
        function: Self::Value,
        arguments: Vec<Self::Value>,
        bound_to: Option<Self::Value>,
        ctx: Self::Context,
    ) -> EsperantoResult<Self::Value>;

    fn call_as_constructor(
        constructor: Self::Value,
        arguments: Vec<Self::Value>,
        ctx: Self::Context,
    ) -> EsperantoResult<Self::Value>;

    fn equals(value: Self::Value, other: Self::Value, ctx: Self::Context) -> bool;

    fn is_instance_of(
        value: Self::Value,
        target: Self::Value,
        ctx: Self::Context,
    ) -> EsperantoResult<bool>;
}

} // verus!
