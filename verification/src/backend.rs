//! Decisions engine implementations take on the raw answers of their engines.

use vstd::prelude::*;
use vstd::string::StringSliceAdditionalSpecFns;

use crate::context::EvaluateMetadata;
use crate::cstring::JSCString;
use crate::engine::JSEngine;
use crate::errors::{
    CatchExceptionError, EsperantoError, EsperantoResult, JSValueError, JavaScriptError,
};
use crate::value::{js_name, lemma_library_keys_have_no_nul};

verus! {

/// The result of an engine call, given whether the call left an exception
/// behind: without one the call's own result stands; with one, the exception
/// copied out of the engine becomes the error, or the failure to copy it.
pub fn settle_exception<T>(result: T, exception: Option<EsperantoResult<JavaScriptError>>) -> (res:
    EsperantoResult<T>)
    ensures
        match exception {
            None => res == Ok::<T, EsperantoError>(result),
            Some(Ok(js_error)) => res == Err::<T, EsperantoError>(
                EsperantoError::JavaScriptError(js_error),
            ),
            Some(Err(e)) => res == Err::<T, EsperantoError>(e),
        },
{
    match exception {
        None => Ok(result),
        Some(Ok(js_error)) => Err(EsperantoError::JavaScriptError(js_error)),
        Some(Err(e)) => Err(e),
    }
}

/// Reads an engine's yes-or-no answer, which is 1 for yes.
pub fn engine_flag(raw: i32) -> (res: bool)
    ensures
        res == (raw == 1),
{
    raw == 1
}

/// Reads the answer of an `instanceof` test: 1 for yes, 0 for no; anything
/// else is an outcome the library cannot account for.
pub fn instance_of_answer(raw: i32) -> (res: EsperantoResult<bool>)
    ensures
        raw == 0 || raw == 1 ==> res == Ok::<bool, EsperantoError>(raw == 1),
        raw != 0 && raw != 1 ==> res == Err::<bool, EsperantoError>(
            EsperantoError::CatchExceptionError(
                Box::new(CatchExceptionError::UnknownExceptionOccurred),
            ),
        ),
{
    if raw != 0 && raw != 1 {
        Err(EsperantoError::CatchExceptionError(Box::new(CatchExceptionError::UnknownExceptionOccurred)))
    } else {
        Ok(raw == 1)
    }
}

/// Reads the status of a conversion to a number: 0 is success, anything else
/// means the value is not a number.
pub fn number_status(status: i32) -> (res: EsperantoResult<()>)
    ensures
        status == 0 ==> res is Ok,
        status != 0 ==> res == Err::<(), EsperantoError>(
            EsperantoError::ValueError(JSValueError::IsNotANumber),
        ),
{
    if status != 0 {
        Err(EsperantoError::ValueError(JSValueError::IsNotANumber))
    } else {
        Ok(())
    }
}

/// Operations on properties need an object; any other value is refused.
pub fn require_object(is_object: bool) -> (res: EsperantoResult<()>)
    ensures
        is_object ==> res is Ok,
        !is_object ==> res == Err::<(), EsperantoError>(
            EsperantoError::ValueError(JSValueError::IsNotAnObject),
        ),
{
    if is_object {
        Ok(())
    } else {
        Err(EsperantoError::ValueError(JSValueError::IsNotAnObject))
    }
}

/// The line number reported for evaluated code: the one given with the file
/// details, or the first line.
pub fn line_number_for(metadata: Option<&EvaluateMetadata>) -> (res: i32)
    ensures
        match metadata {
            Some(m) => res == m.line_number,
            None => res == 1,
        },
{
    match metadata {
        Some(m) => m.line_number,
        None => 1,
    }
}

/// The engine was asked to set the property named `key` of `object` to
/// `value`.
pub open spec fn sets_property<E: JSEngine>(
    object: E::Value,
    ctx: E::Context,
    key: Seq<u8>,
    value: E::Value,
) -> bool {
    exists|k: JSCString, r: EsperantoResult<()>|
        #[trigger] call_ensures(E::set_property, (object, ctx, &k, value), r) && k@ == key
}

/// The engine made a string from `text`, was asked to set the property
/// named `key` of `object` to it, and was then given the string back.
pub open spec fn sets_text_property<E: JSEngine>(
    object: E::Value,
    ctx: E::Context,
    key: Seq<u8>,
    text: &JSCString,
) -> bool {
    exists|v: E::Value|
        #[trigger] call_ensures(E::from_cstring, (text, ctx), v) && sets_property::<E>(
            object,
            ctx,
            key,
            v,
        ) && call_ensures(E::release, (v, ctx), ())
}

/// Gives a fresh error object the `name` and `message` of a JavaScript error,
/// for engines whose error constructor takes neither: the engine makes a
/// string from each text and is asked to set the object's `name` property to
/// the first and its `message` property to the second. A property the engine
/// refuses to set is skipped; the object is handed back either way, and the
/// strings made on the way are given back to the engine.
pub fn name_error_object<E: JSEngine>(
    error_object: E::Value,
    name: &JSCString,
    message: &JSCString,
    ctx: E::Context,
) -> (res: E::Value)
    ensures
        res == error_object,
        sets_text_property::<E>(error_object, ctx, "name".spec_bytes(), name),
        sets_text_property::<E>(error_object, ctx, "message".spec_bytes(), message),
{
    proof {
        lemma_library_keys_have_no_nul();
    }
    let name_value = E::from_cstring(name, ctx);
    let message_value = E::from_cstring(message, ctx);
    match js_name("name") {
        Ok(key) => {
            let set = E::set_property(error_object, ctx, &key, name_value);
            assert(call_ensures(E::set_property, (error_object, ctx, &key, name_value), set));
            assert(sets_property::<E>(error_object, ctx, "name".spec_bytes(), name_value));
        },
        Err(_) => {},
    }
    match js_name("message") {
        Ok(key) => {
            let set = E::set_property(error_object, ctx, &key, message_value);
            assert(call_ensures(E::set_property, (error_object, ctx, &key, message_value), set));
            assert(sets_property::<E>(error_object, ctx, "message".spec_bytes(), message_value));
        },
        Err(_) => {},
    }
    E::release(name_value, ctx);
    E::release(message_value, ctx);
    assert(call_ensures(E::from_cstring, (name, ctx), name_value));
    assert(call_ensures(E::from_cstring, (message, ctx), message_value));
    assert(call_ensures(E::release, (name_value, ctx), ()));
    assert(call_ensures(E::release, (message_value, ctx), ()));
    error_object
}

/// The engine, asked for the global `Function` constructor, gave `got`; when
/// it gave one, `res` is what the constructor returned when called with the
/// strings made from `names`, in order, followed by the string made from
/// `body` (as `new Function(name1, ..., nameN, body)`); otherwise `res` is the
/// engine's error. Every value read or made on the way (the global object,
/// the constructor, each string) is given back to the engine.
pub open spec fn function_constructor_called<E: JSEngine>(
    ctx: E::Context,
    body: &JSCString,
    names: Seq<JSCString>,
    res: EsperantoResult<E::Value>,
) -> bool {
    exists|global: E::Value, key: JSCString, got: EsperantoResult<E::Value>|
        #![trigger call_ensures(E::global_object, (ctx,), global), call_ensures(E::get_property, (global, ctx, &key), got)]
        key@ == "Function".spec_bytes() && call_ensures(E::global_object, (ctx,), global)
            && call_ensures(E::get_property, (global, ctx, &key), got) && call_ensures(
            E::release,
            (global, ctx),
            (),
        ) && match got {
            Err(e) => res == Err::<E::Value, EsperantoError>(e),
            Ok(constructor) => exists|args: Vec<E::Value>|
                #[trigger] call_ensures(E::call_as_constructor, (constructor, args, ctx), res)
                    && args@.len() == names.len() + 1 && (forall|i: int|
                    0 <= i < names.len() ==> #[trigger] call_ensures(
                        E::from_cstring,
                        (&names[i], ctx),
                        args@[i],
                    )) && call_ensures(E::from_cstring, (body, ctx), args@[names.len() as int])
                    && call_ensures(E::release, (constructor, ctx), ()) && (forall|i: int|
                    0 <= i < args@.len() ==> #[trigger] call_ensures(E::release, (args@[i], ctx), ())),
        }
}

/// Makes a function the way `new Function(name1, ..., nameN, body)` does, for
/// engines without a call that builds one from source: the global `Function`
/// constructor is called with the argument names followed by the body, and
/// what it returns (or throws) is passed on. Every value made or read on the
/// way is given back to the engine.
pub fn new_function_by_constructor<E: JSEngine>(
    body: &JSCString,
    argument_names: &Vec<JSCString>,
    ctx: E::Context,
) -> (res: EsperantoResult<E::Value>)
    ensures
        function_constructor_called::<E>(ctx, body, argument_names@, res),
{
    proof {
        lemma_library_keys_have_no_nul();
    }
    let function_key = js_name("Function")?;
    let global = E::global_object(ctx);
    let got = E::get_property(global, ctx, &function_key);
    let ghost got_answer = got;
    assert(call_ensures(E::global_object, (ctx,), global));
    assert(call_ensures(E::get_property, (global, ctx, &function_key), got_answer));
    let constructor = match got {
        Ok(c) => c,
        Err(e) => {
            E::release(global, ctx);
            assert(call_ensures(E::release, (global, ctx), ()));
            return Err(e);
        },
    };
    let mut arguments: Vec<E::Value> = Vec::new();
    let mut made: Vec<E::Value> = Vec::new();
    let n = argument_names.len();
    let mut i: usize = 0;
    while i < n
        invariant
            n == argument_names@.len(),
            i <= n,
            arguments@.len() == i,
            made@ == arguments@,
            forall|j: int|
                0 <= j < i ==> #[trigger] call_ensures(
                    E::from_cstring,
                    (&argument_names@[j], ctx),
                    arguments@[j],
                ),
        decreases n - i,
    {
        let v = E::from_cstring(&argument_names[i], ctx);
        arguments.push(v);
        made.push(v);
        i = i + 1;
    }
    let body_value = E::from_cstring(body, ctx);
    arguments.push(body_value);
    made.push(body_value);
    let ghost given = arguments;
    let result = E::call_as_constructor(constructor, arguments, ctx);
    assert(call_ensures(E::call_as_constructor, (constructor, given, ctx), result));
    assert(forall|j: int|
        0 <= j < n ==> #[trigger] call_ensures(E::from_cstring, (&argument_names@[j], ctx), given@[j]));
    assert(call_ensures(E::from_cstring, (body, ctx), given@[n as int]));
    E::release(global, ctx);
    E::release(constructor, ctx);
    assert(call_ensures(E::release, (global, ctx), ()));
    assert(call_ensures(E::release, (constructor, ctx), ()));
    let total = made.len();
    let mut j: usize = 0;
    while j < total
        invariant
            total == made@.len(),
            made@ == given@,
            j <= total,
            forall|k: int| 0 <= k < j ==> #[trigger] call_ensures(E::release, (made@[k], ctx), ()),
        decreases total - j,
    {
        E::release(made[j], ctx);
        j = j + 1;
    }
    assert(forall|k: int|
        0 <= k < given@.len() ==> #[trigger] call_ensures(E::release, (given@[k], ctx), ()));
    result
}

} // verus!
