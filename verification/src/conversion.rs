use vstd::prelude::*;
use vstd::string::StringSliceAdditionalSpecFns;
use vstd::utf8::{decode_utf8, encode_utf8, valid_utf8};

use crate::context::JSContext;
use crate::cstring::{has_nul, JSCString};
use crate::engine::JSEngine;
use crate::errors::{ConversionError, EsperantoError, EsperantoResult, JavaScriptError, Utf8Error};
use crate::retain::Retain;
use crate::text::{string_from_utf8, string_from_utf8_lossy, utf8_lossy};
use crate::value::{
    is_nul_error_for, is_retained_result, js_name, lemma_library_keys_have_no_nul, JSValue,
};

verus! {

/// Native values that can be turned into JavaScript values, possibly failing.
pub trait TryJSValueFrom<'r, 'c, E: JSEngine>: Sized {
    fn try_jsvalue_from(value: Self, in_context: &'c JSContext<'r, E>) -> EsperantoResult<
        Retain<JSValue<'r, 'c, E>>,
    >;
}

/// Native values that can always be turned into JavaScript values.
pub trait JSValueFrom<'r, 'c, E: JSEngine>: Sized {
    fn jsvalue_from(value: Self, in_context: &'c JSContext<'r, E>) -> Retain<JSValue<'r, 'c, E>>;
}

/// The fallible conversion of a value that always converts: what
/// `TryJSValueFrom` gives for a `JSValueFrom` type. (A blanket impl of
/// `TryJSValueFrom` for every `JSValueFrom` type would overlap the impls for
/// `&str`, `String` and `bool` below, since other crates may implement
/// `JSValueFrom` for those types with an engine of their own.)
pub fn try_jsvalue_from_infallible<'r, 'c, E: JSEngine, T: JSValueFrom<'r, 'c, E>>(
    value: T,
    in_context: &'c JSContext<'r, E>,
) -> (res: EsperantoResult<Retain<JSValue<'r, 'c, E>>>)
    ensures
        res matches Ok(v) && call_ensures(T::jsvalue_from, (value, in_context), v),
{
    Ok(T::jsvalue_from(value, in_context))
}

/// Native values that can be read out of JavaScript values, possibly failing.
pub trait TryConvertJSValue<'r, 'c, E: JSEngine>: Sized {
    fn try_from_jsvalue(value: &JSValue<'r, 'c, E>) -> EsperantoResult<Self>;
}

/// What a string read out of JavaScript becomes, given the bytes of its text:
/// the text they encode when they are valid UTF-8, and otherwise a failed
/// conversion.
pub open spec fn spec_string_from_js_text(bytes: Seq<u8>) -> Option<Seq<char>> {
    if valid_utf8(bytes) {
        Some(decode_utf8(bytes))
    } else {
        None
    }
}

/// `e` describes where `bytes` stop being UTF-8: the longest valid prefix,
/// and, when an invalid sequence was found before the end, its length, which
/// lies within the bytes.
pub open spec fn is_utf8_error_for(bytes: Seq<u8>, e: Utf8Error) -> bool {
    &&& e.valid_up_to <= bytes.len()
    &&& valid_utf8(bytes.subrange(0, e.valid_up_to as int))
    &&& forall|k: int|
        e.valid_up_to < k <= bytes.len() ==> !valid_utf8(#[trigger] bytes.subrange(0, k))
    &&& e.error_len matches Some(n) ==> 1 <= n && e.valid_up_to + n <= bytes.len()
}

/// `res` is what reading the bytes of a JavaScript string gives: the text
/// they encode when they are valid UTF-8, and otherwise a failed conversion
/// that says where the bytes stop being UTF-8.
pub open spec fn is_text_read(bytes: Seq<u8>, res: EsperantoResult<String>) -> bool {
    match spec_string_from_js_text(bytes) {
        Some(t) => res matches Ok(s) && s@ == t,
        None => res matches Err(
            EsperantoError::ConversionError(ConversionError::CouldNotConvertFromJSString(e)),
        ) && is_utf8_error_for(bytes, e),
    }
}

/// `res` is what reading the engine's answer `text` for a value's text gives:
/// the decoding of its bytes, or the engine's error unchanged.
pub open spec fn is_string_result(text: EsperantoResult<Vec<u8>>, res: EsperantoResult<String>) -> bool {
    match text {
        Ok(bytes) => is_text_read(bytes@, res),
        Err(e) => res == Err::<String, EsperantoError>(e),
    }
}

/// The engine, asked for the property with name `key` of `value`, gave a
/// value whose text it gave as `bytes`.
pub open spec fn property_bytes_read<E: JSEngine>(
    value: E::Value,
    ctx: E::Context,
    key: Seq<u8>,
    bytes: Seq<u8>,
) -> bool {
    exists|k: JSCString, v: E::Value, b: Vec<u8>|
        #![trigger call_ensures(E::get_property, (value, ctx, &k), Ok::<E::Value, EsperantoError>(v)), call_ensures(E::to_cstring, (v, ctx), Ok::<Vec<u8>, EsperantoError>(b))]
        k@ == key && call_ensures(
            E::get_property,
            (value, ctx, &k),
            Ok::<E::Value, EsperantoError>(v),
        ) && call_ensures(E::to_cstring, (v, ctx), Ok::<Vec<u8>, EsperantoError>(b)) && b@
            == bytes
}

/// Turns the bytes of a JavaScript string into native text.
pub fn string_from_js_text(bytes: Vec<u8>) -> (res: EsperantoResult<String>)
    ensures
        is_text_read(bytes@, res),
{
    match string_from_utf8(bytes) {
        Ok(s) => Ok(s),
        Err(e) => Err(EsperantoError::ConversionError(ConversionError::CouldNotConvertFromJSString(e))),
    }
}

/// Only error objects can be copied out as errors; the engine's answer to
/// whether a value is one decides.
pub fn require_error(is_error: bool) -> (res: EsperantoResult<()>)
    ensures
        is_error ==> res is Ok,
        !is_error ==> res == Err::<(), EsperantoError>(
            EsperantoError::ConversionError(ConversionError::JSValueWasNotAnError),
        ),
{
    if is_error {
        Ok(())
    } else {
        Err(EsperantoError::ConversionError(ConversionError::JSValueWasNotAnError))
    }
}

/// Builds the native copy of a JavaScript error from the bytes of its name and
/// message; bytes that are not UTF-8 are replaced, never refused.
pub fn js_error_from_texts(name: &[u8], message: &[u8]) -> (res: JavaScriptError)
    ensures
        res.name@ == utf8_lossy(name@),
        res.message@ == utf8_lossy(message@),
        valid_utf8(name@) ==> res.name@ == decode_utf8(name@),
        valid_utf8(message@) ==> res.message@ == decode_utf8(message@),
{
    JavaScriptError::new(string_from_utf8_lossy(name), string_from_utf8_lossy(message))
}

/// Reads the `name` and `message` properties of an error object and copies
/// them out of the engine. Every value read is given back to the engine,
/// whether or not the copy succeeds.
pub fn js_error_from_value<E: JSEngine>(value: E::Value, ctx: E::Context) -> (res: EsperantoResult<
    JavaScriptError,
>)
    ensures
        res matches Ok(err) ==> exists|n: Seq<u8>, m: Seq<u8>|
            #![trigger property_bytes_read::<E>(value, ctx, "name".spec_bytes(), n), property_bytes_read::<E>(value, ctx, "message".spec_bytes(), m)]
            property_bytes_read::<E>(value, ctx, "name".spec_bytes(), n) && property_bytes_read::<E>(
                value,
                ctx,
                "message".spec_bytes(),
                m,
            ) && err.name@ == utf8_lossy(n) && err.message@ == utf8_lossy(m),
        exists|name_key: JSCString, name_got: EsperantoResult<E::Value>|
            #[trigger] call_ensures(E::get_property, (value, ctx, &name_key), name_got)
                && name_key@ == "name".spec_bytes() && (name_got matches Err(e) ==> res == Err::<
                JavaScriptError,
                EsperantoError,
            >(e)) && (name_got matches Ok(name) ==> exists|
                message_key: JSCString,
                message_got: EsperantoResult<E::Value>,
            |
                #[trigger] call_ensures(E::get_property, (value, ctx, &message_key), message_got)
                    && message_key@ == "message".spec_bytes() && (message_got matches Err(e)
                    ==> res == Err::<JavaScriptError, EsperantoError>(e) && call_ensures(
                    E::release,
                    (name, ctx),
                    (),
                )) && (message_got matches Ok(message) ==> call_ensures(E::release, (name, ctx), ())
                    && call_ensures(E::release, (message, ctx), ()) && exists|name_text: EsperantoResult<Vec<u8>>, message_text: EsperantoResult<Vec<u8>>|
                    #![trigger call_ensures(E::to_cstring, (name, ctx), name_text), call_ensures(E::to_cstring, (message, ctx), message_text)]
                    call_ensures(E::to_cstring, (name, ctx), name_text) && call_ensures(
                        E::to_cstring,
                        (message, ctx),
                        message_text,
                    ) && (name_text matches Err(e) ==> res == Err::<JavaScriptError, EsperantoError>(
                        e,
                    )) && (name_text matches Ok(nb) ==> (message_text matches Err(e) ==> res
                        == Err::<JavaScriptError, EsperantoError>(e)) && (message_text matches Ok(
                        mb,
                    ) ==> (res matches Ok(err) && err.name@ == utf8_lossy(nb@) && err.message@
                        == utf8_lossy(mb@)))))),
{
    proof {
        lemma_library_keys_have_no_nul();
    }
    let name_key = js_name("name")?;
    let message_key = js_name("message")?;
    let name_got = E::get_property(value, ctx, &name_key);
    let ghost name_answer = name_got;
    assert(call_ensures(E::get_property, (value, ctx, &name_key), name_answer));
    let name = match name_got {
        Ok(n) => n,
        Err(e) => {
            return Err(e);
        },
    };
    let message_got = E::get_property(value, ctx, &message_key);
    let ghost message_answer = message_got;
    assert(call_ensures(E::get_property, (value, ctx, &message_key), message_answer));
    let message = match message_got {
        Ok(m) => m,
        Err(e) => {
            E::release(name, ctx);
            assert(call_ensures(E::release, (name, ctx), ()));
            return Err(e);
        },
    };
    let name_text = E::to_cstring(name, ctx);
    let message_text = E::to_cstring(message, ctx);
    let ghost name_text_answer = name_text;
    let ghost message_text_answer = message_text;
    assert(call_ensures(E::to_cstring, (name, ctx), name_text_answer));
    assert(call_ensures(E::to_cstring, (message, ctx), message_text_answer));
    E::release(name, ctx);
    E::release(message, ctx);
    assert(call_ensures(E::release, (name, ctx), ()));
    assert(call_ensures(E::release, (message, ctx), ()));
    let name_text = match name_text {
        Ok(t) => t,
        Err(e) => {
            return Err(e);
        },
    };
    let message_text = match message_text {
        Ok(t) => t,
        Err(e) => {
            return Err(e);
        },
    };
    proof {
        assert(property_bytes_read::<E>(value, ctx, "name".spec_bytes(), name_text@));
        assert(property_bytes_read::<E>(value, ctx, "message".spec_bytes(), message_text@));
    }
    Ok(js_error_from_texts(name_text.as_slice(), message_text.as_slice()))
}

impl<'a, 'r, 'c, E: JSEngine> TryJSValueFrom<'r, 'c, E> for &'a str {
    /// A string crosses into JavaScript unless it holds a NUL byte.
    fn try_jsvalue_from(value: Self, in_context: &'c JSContext<'r, E>) -> (res: EsperantoResult<
        Retain<JSValue<'r, 'c, E>>,
    >)
        ensures
            has_nul(value.spec_bytes()) ==> (res matches Err(e) && is_nul_error_for(
                e,
                value.spec_bytes(),
            )),
            !has_nul(value.spec_bytes()) ==> (res matches Ok(v) && v.retained().context_handle()
                == in_context.handle() && exists|c: JSCString|
                c@ == value.spec_bytes() && #[trigger] call_ensures(
                    E::from_cstring,
                    (&c, in_context.handle()),
                    v.retained().raw(),
                )),
    {
        let text = js_name(value)?;
        let raw = E::from_cstring(&text, in_context.implementation());
        let made = JSValue::wrap_internal(raw, in_context);
        assert(call_ensures(E::from_cstring, (&text, in_context.handle()), made.raw()));
        Ok(Retain::wrap(made))
    }
}

impl<'r, 'c, E: JSEngine> TryJSValueFrom<'r, 'c, E> for String {
    /// A string crosses into JavaScript unless it holds a NUL byte.
    fn try_jsvalue_from(value: Self, in_context: &'c JSContext<'r, E>) -> (res: EsperantoResult<
        Retain<JSValue<'r, 'c, E>>,
    >)
        ensures
            has_nul(encode_utf8(value@)) ==> (res matches Err(e) && is_nul_error_for(
                e,
                encode_utf8(value@),
            )),
            !has_nul(encode_utf8(value@)) ==> (res matches Ok(v)
                && v.retained().context_handle() == in_context.handle() && exists|c: JSCString|
                c@ == encode_utf8(value@) && #[trigger] call_ensures(
                    E::from_cstring,
                    (&c, in_context.handle()),
                    v.retained().raw(),
                )),
    {
        <&str as TryJSValueFrom<'r, 'c, E>>::try_jsvalue_from(value.as_str(), in_context)
    }
}

impl<'r, 'c, E: JSEngine> TryJSValueFrom<'r, 'c, E> for bool {
    fn try_jsvalue_from(value: Self, in_context: &'c JSContext<'r, E>) -> (res: EsperantoResult<
        Retain<JSValue<'r, 'c, E>>,
    >)
        ensures
            exists|raw: EsperantoResult<E::Value>|
                #[trigger] call_ensures(E::from_bool, (value, in_context.handle()), raw)
                    && is_retained_result(raw, res, in_context.handle()),
            res matches Ok(v) ==> v.retained().context_handle() == in_context.handle(),
    {
        let raw = E::from_bool(value, in_context.implementation());
        let ghost answer = raw;
        let res = JSValue::retained_result(raw, in_context);
        assert(call_ensures(E::from_bool, (value, in_context.handle()), answer));
        res
    }
}

impl<'r, 'c, E: JSEngine> TryJSValueFrom<'r, 'c, E> for EsperantoError {
    /// An error crosses into JavaScript as an error object named after its
    /// kind and carrying its text; an error that came out of JavaScript keeps
    /// its own name and message. A name or message holding a NUL byte cannot
    /// cross.
    fn try_jsvalue_from(value: Self, in_context: &'c JSContext<'r, E>) -> (res: EsperantoResult<
        Retain<JSValue<'r, 'c, E>>,
    >)
        ensures
            has_nul(encode_utf8(value.spec_js_error_name())) ==> (res matches Err(e)
                && is_nul_error_for(e, encode_utf8(value.spec_js_error_name()))),
            !has_nul(encode_utf8(value.spec_js_error_name())) && has_nul(
                encode_utf8(value.spec_js_error_message()),
            ) ==> (res matches Err(e) && is_nul_error_for(
                e,
                encode_utf8(value.spec_js_error_message()),
            )),
            res is Ok <==> !has_nul(encode_utf8(value.spec_js_error_name())) && !has_nul(
                encode_utf8(value.spec_js_error_message()),
            ),
            res matches Ok(v) ==> v.retained().context_handle() == in_context.handle() && exists|
                n: JSCString,
                m: JSCString,
            |
                n@ == encode_utf8(value.spec_js_error_name()) && m@ == encode_utf8(
                    value.spec_js_error_message(),
                ) && #[trigger] call_ensures(
                    E::new_error,
                    (&n, &m, in_context.handle()),
                    v.retained().raw(),
                ),
    {
        let (name, message) = value.js_error_parts();
        let created = JSValue::new_error(name.as_str(), message.as_str(), in_context)?;
        Ok(Retain::wrap(created))
    }
}

impl<'r, 'c, E: JSEngine> TryConvertJSValue<'r, 'c, E> for String {
    /// Reads the text of a value; text that is not UTF-8 is a conversion error.
    fn try_from_jsvalue(value: &JSValue<'r, 'c, E>) -> (res: EsperantoResult<Self>)
        ensures
            exists|text: EsperantoResult<Vec<u8>>|
                #[trigger] call_ensures(E::to_cstring, (value.raw(), value.context_handle()), text)
                    && is_string_result(text, res),
    {
        let text = E::to_cstring(value.internal(), value.context().implementation());
        let ghost answer = text;
        let res = match text {
            Ok(bytes) => string_from_js_text(bytes),
            Err(e) => Err(e),
        };
        assert(call_ensures(E::to_cstring, (value.raw(), value.context_handle()), answer));
        res
    }
}

impl<'r, 'c, E: JSEngine> TryConvertJSValue<'r, 'c, E> for bool {
    /// The engine's truth value for the value.
    fn try_from_jsvalue(value: &JSValue<'r, 'c, E>) -> (res: EsperantoResult<Self>)
        ensures
            call_ensures(E::to_bool, (value.raw(), value.context_handle()), res),
    {
        E::to_bool(value.internal(), value.context().implementation())
    }
}

/// `res` is what reading the property named `key` of `value` as a string
/// gives: the engine is asked for the property and, when it gives one, for
/// that value's text, which is decoded, and the value is given back; an
/// error of the engine is passed on.
pub open spec fn property_read<E: JSEngine>(
    value: E::Value,
    ctx: E::Context,
    key: Seq<u8>,
    res: EsperantoResult<String>,
) -> bool {
    exists|k: JSCString, got: EsperantoResult<E::Value>|
        #![trigger call_ensures(E::get_property, (value, ctx, &k), got)]
        k@ == key && call_ensures(E::get_property, (value, ctx, &k), got) && (got matches Err(e)
            ==> res == Err::<String, EsperantoError>(e)) && (got matches Ok(p) ==> call_ensures(
            E::release,
            (p, ctx),
            (),
        ) && exists|text: EsperantoResult<Vec<u8>>|
            #[trigger] call_ensures(E::to_cstring, (p, ctx), text) && is_string_result(text, res))
}

/// Reads one property of an error object as a string: the engine is asked
/// for the property named `key` and then for that value's text, which is
/// decoded as UTF-8. The value read is given back to the engine.
fn read_property_text<'r, 'c, E: JSEngine>(value: &JSValue<'r, 'c, E>, key: &str) -> (res:
    EsperantoResult<String>)
    requires
        !has_nul(key.spec_bytes()),
    ensures
        property_read::<E>(value.raw(), value.context_handle(), key.spec_bytes(), res),
        res matches Ok(s) ==> exists|b: Seq<u8>|
            #[trigger] property_bytes_read::<E>(
                value.raw(),
                value.context_handle(),
                key.spec_bytes(),
                b,
            ) && spec_string_from_js_text(b) == Some(s@),
{
    let ctx = value.context().implementation();
    let key_c = js_name(key)?;
    let got = E::get_property(value.internal(), ctx, &key_c);
    let ghost got_answer = got;
    assert(call_ensures(E::get_property, (value.raw(), ctx, &key_c), got_answer));
    let property = match got {
        Ok(p) => p,
        Err(e) => {
            return Err(e);
        },
    };
    let text = E::to_cstring(property, ctx);
    let ghost text_answer = text;
    assert(call_ensures(E::to_cstring, (property, ctx), text_answer));
    E::release(property, ctx);
    assert(call_ensures(E::release, (property, ctx), ()));
    let bytes = match text {
        Ok(b) => b,
        Err(e) => {
            return Err(e);
        },
    };
    let ghost read = bytes@;
    proof {
        assert(property_bytes_read::<E>(value.raw(), ctx, key.spec_bytes(), read));
    }
    string_from_js_text(bytes)
}

impl<'r, 'c, E: JSEngine> TryConvertJSValue<'r, 'c, E> for JavaScriptError {
    /// Copies an error object out of JavaScript: the engine is asked whether
    /// the value is an error, and a value that is not is refused; otherwise
    /// its `name` and `message` properties are read as strings, in that order.
    fn try_from_jsvalue(value: &JSValue<'r, 'c, E>) -> (res: EsperantoResult<Self>)
        ensures
            exists|answer: EsperantoResult<bool>|
                #[trigger] call_ensures(E::is_error, (value.raw(), value.context_handle()), answer)
                    && (answer matches Ok(false) ==> res == Err::<JavaScriptError, EsperantoError>(
                    EsperantoError::ConversionError(ConversionError::JSValueWasNotAnError),
                )) && (answer matches Err(e) ==> res == Err::<JavaScriptError, EsperantoError>(e))
                    && (res is Ok ==> answer == Ok::<bool, EsperantoError>(true)) && (answer
                    == Ok::<bool, EsperantoError>(true) ==> exists|name: EsperantoResult<String>|
                    #[trigger] property_read::<E>(
                        value.raw(),
                        value.context_handle(),
                        "name".spec_bytes(),
                        name,
                    ) && (name matches Err(e) ==> res == Err::<JavaScriptError, EsperantoError>(e))
                        && (name matches Ok(n) ==> exists|message: EsperantoResult<String>|
                        #[trigger] property_read::<E>(
                            value.raw(),
                            value.context_handle(),
                            "message".spec_bytes(),
                            message,
                        ) && (message matches Err(e) ==> res == Err::<
                            JavaScriptError,
                            EsperantoError,
                        >(e)) && (message matches Ok(m) ==> (res matches Ok(err) && err.name
                            == n && err.message == m)))),
            res matches Ok(err) ==> exists|n: Seq<u8>, m: Seq<u8>|
                #![trigger property_bytes_read::<E>(value.raw(), value.context_handle(), "name".spec_bytes(), n), property_bytes_read::<E>(value.raw(), value.context_handle(), "message".spec_bytes(), m)]
                property_bytes_read::<E>(value.raw(), value.context_handle(), "name".spec_bytes(), n)
                    && property_bytes_read::<E>(
                    value.raw(),
                    value.context_handle(),
                    "message".spec_bytes(),
                    m,
                ) && spec_string_from_js_text(n) == Some(err.name@) && spec_string_from_js_text(m)
                    == Some(err.message@),
    {
        proof {
            lemma_library_keys_have_no_nul();
        }
        let answer = value.is_error();
        let ghost given = answer;
        let is_error = match answer {
            Ok(b) => b,
            Err(e) => {
                assert(call_ensures(E::is_error, (value.raw(), value.context_handle()), given));
                return Err(e);
            },
        };
        assert(call_ensures(E::is_error, (value.raw(), value.context_handle()), given));
        require_error(is_error)?;
        let name = read_property_text(value, "name");
        let ghost name_read = name;
        let name = match name {
            Ok(n) => n,
            Err(e) => {
                return Err(e);
            },
        };
        let message = read_property_text(value, "message");
        let ghost message_read = message;
        let message = match message {
            Ok(m) => m,
            Err(e) => {
                return Err(e);
            },
        };
        let res = JavaScriptError::new(name, message);
        proof {
            assert(property_read::<E>(
                value.raw(),
                value.context_handle(),
                "name".spec_bytes(),
                name_read,
            ));
            assert(property_read::<E>(
                value.raw(),
                value.context_handle(),
                "message".spec_bytes(),
                message_read,
            ));
        }
        Ok(res)
    }
}

} // verus!
