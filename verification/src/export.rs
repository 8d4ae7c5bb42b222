use vstd::prelude::*;

use vstd::utf8::encode_utf8;

use crate::context::JSContext;
use crate::cstring::{has_nul, JSCString};
use crate::conversion::TryJSValueFrom;
use crate::engine::JSEngine;
use crate::errors::{EsperantoError, EsperantoResult, JSExportError, JavaScriptError};
use crate::retain::Retain;
use crate::value::JSValue;

verus! {

/// Which native function of an exported class answers a call of it.
#[derive(Debug, Clone, Copy, PartialEq, Eq, Structural)]
pub enum ExportCallTarget {
    Constructor,
    Function,
}

/// Whether the call flags an engine passes mark a call through `new`.
pub fn is_constructor_call(flags: i32, constructor_flag: i32) -> (res: bool)
    ensures
        res == ((flags & constructor_flag) == constructor_flag),
{
    flags & constructor_flag == constructor_flag
}

/// The message of the `TypeError` thrown when a class that cannot be called as
/// a function is called without `new`.
pub open spec fn spec_invoked_without_new_message(class_name: &'static str) -> Seq<char> {
    "Class constructor "@ + class_name@ + " cannot be invoked without 'new'"@
}

/// Picks the native function that answers a call of an exported class. A call
/// through `new` goes to the constructor; other calls go to the function. A
/// class without a constructor refuses `new` with an export error; a class
/// without a function refuses plain calls with the `TypeError` JavaScript
/// itself raises for class constructors.
pub fn class_call_target(
    as_constructor: bool,
    has_constructor: bool,
    has_function: bool,
    class_name: &'static str,
) -> (res: EsperantoResult<ExportCallTarget>)
    ensures
        as_constructor && has_constructor ==> res == Ok::<ExportCallTarget, EsperantoError>(
            ExportCallTarget::Constructor,
        ),
        as_constructor && !has_constructor ==> res == Err::<ExportCallTarget, EsperantoError>(
            EsperantoError::ExportError(
                JSExportError::ConstructorCalledOnNonConstructableClass(class_name),
            ),
        ),
        !as_constructor && has_function ==> res == Ok::<ExportCallTarget, EsperantoError>(
            ExportCallTarget::Function,
        ),
        !as_constructor && !has_function ==> (res matches Err(EsperantoError::JavaScriptError(j))
            && j.name@ == "TypeError"@ && j.message@ == spec_invoked_without_new_message(
            class_name,
        )),
{
    if as_constructor {
        if has_constructor {
            Ok(ExportCallTarget::Constructor)
        } else {
            Err(
                EsperantoError::ExportError(
                    JSExportError::ConstructorCalledOnNonConstructableClass(class_name),
                ),
            )
        }
    } else if has_function {
        Ok(ExportCallTarget::Function)
    } else {
        let mut message = String::from_str("Class constructor ");
        message.append(class_name);
        message.append(" cannot be invoked without 'new'");
        Err(
            EsperantoError::JavaScriptError(
                JavaScriptError::new(String::from_str("TypeError"), message),
            ),
        )
    }
}

/// Checks that a native callback is present before it is run; a missing one is
/// reported as a class without a constructor.
pub fn callback_available(present: bool, class_name: &'static str) -> (res: EsperantoResult<()>)
    ensures
        present ==> res is Ok,
        !present ==> res == Err::<(), EsperantoError>(
            EsperantoError::ExportError(
                JSExportError::ConstructorCalledOnNonConstructableClass(class_name),
            ),
        ),
{
    if present {
        Ok(())
    } else {
        Err(
            EsperantoError::ExportError(
                JSExportError::ConstructorCalledOnNonConstructableClass(class_name),
            ),
        )
    }
}

/// The engine hooks a class definition for an exported type installs.
#[derive(Debug, Clone, Copy, PartialEq, Eq, Structural)]
pub struct ClassHooks {
    /// The prototype answers calls at all (either kind).
    pub prototype_call: bool,
    /// The prototype is marked as a constructor.
    pub constructor_bit: bool,
    /// The class answers calls through `new`.
    pub call_as_constructor: bool,
    /// The class answers plain calls.
    pub call_as_function: bool,
}

/// Which hooks to install for a class with or without a constructor and a
/// function.
pub fn class_hooks(has_constructor: bool, has_function: bool) -> (res: ClassHooks)
    ensures
        res.prototype_call == (has_constructor || has_function),
        res.constructor_bit == has_constructor,
        res.call_as_constructor == has_constructor,
        res.call_as_function == has_function,
{
    ClassHooks {
        prototype_call: has_constructor || has_function,
        constructor_bit: has_constructor,
        call_as_constructor: has_constructor,
        call_as_function: has_function,
    }
}

/// Checks that native data attached to an object belongs to the expected type
/// before it is handed out as that type.
pub fn check_native_type(stored_type: u64, expected_type: u64, class_name: &'static str) -> (res:
    EsperantoResult<()>)
    ensures
        res is Ok <==> stored_type == expected_type,
        res is Err ==> res == Err::<(), EsperantoError>(
            EsperantoError::ExportError(JSExportError::CouldNotGetNativeObject(class_name)),
        ),
{
    if stored_type == expected_type {
        Ok(())
    } else {
        Err(EsperantoError::ExportError(JSExportError::CouldNotGetNativeObject(class_name)))
    }
}

/// How a call of an exported class ends for the engine: a value to return, or
/// an error to throw (the error value itself, or why it could not be made).
pub enum ExportOutcome<'r, 'c, E: JSEngine> {
    Returned(Retain<JSValue<'r, 'c, E>>),
    Thrown(EsperantoResult<Retain<JSValue<'r, 'c, E>>>),
}

/// Turns the result of a native callback into what the engine should do: a
/// value is returned, an error is converted into a JavaScript error object to
/// be thrown.
pub fn settle_export_call<'r, 'c, E: JSEngine>(
    result: EsperantoResult<Retain<JSValue<'r, 'c, E>>>,
    in_context: &'c JSContext<'r, E>,
) -> (res: ExportOutcome<'r, 'c, E>)
    ensures
        result is Ok <==> res is Returned,
        result matches Ok(v) ==> res == ExportOutcome::Returned(v),
        result matches Err(e) ==> (res matches ExportOutcome::Thrown(thrown) && (thrown is Ok
            <==> !has_nul(encode_utf8(e.spec_js_error_name())) && !has_nul(
            encode_utf8(e.spec_js_error_message()),
        ))),
        res matches ExportOutcome::Thrown(Ok(v)) ==> v.retained().context_handle()
            == in_context.handle(),
        result matches Err(e) ==> (res matches ExportOutcome::Thrown(Ok(v)) ==> exists|
            n: JSCString,
            m: JSCString,
        |
            n@ == encode_utf8(e.spec_js_error_name()) && m@ == encode_utf8(
                e.spec_js_error_message(),
            ) && #[trigger] call_ensures(
                E::new_error,
                (&n, &m, in_context.handle()),
                v.retained().raw(),
            )),
{
    match result {
        Ok(v) => ExportOutcome::Returned(v),
        Err(e) => ExportOutcome::Thrown(
            <EsperantoError as TryJSValueFrom<'r, 'c, E>>::try_jsvalue_from(e, in_context),
        ),
    }
}

} // verus!
