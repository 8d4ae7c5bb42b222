use vstd::prelude::*;
use vstd::string::{is_ascii, StringSliceAdditionalSpecFns};

use crate::context::JSContext;
use crate::conversion::{TryConvertJSValue, TryJSValueFrom};
use crate::cstring::{has_nul, is_first_nul, JSCString};
use crate::engine::JSEngine;
use crate::errors::{ConversionError, EsperantoError, EsperantoResult, NulError};
use crate::retain::{Retain, Retainable};
use crate::text::{string_from_utf8_lossy, utf8_lossy};

verus! {

/// `err` is the error reported for `text` holding a NUL byte: a failed
/// conversion to a JavaScript string, at the first NUL byte.
pub open spec fn is_nul_error_for(err: EsperantoError, text: Seq<u8>) -> bool {
    &&& err matches EsperantoError::ConversionError(ConversionError::CouldNotConvertToJSString(e))
    &&& is_first_nul(text, e.nul_position as int)
    &&& e.bytes@ == text
}

/// The names of properties and globals the library itself asks engines for
/// hold no NUL byte, so they always reach the engine.
pub proof fn lemma_library_keys_have_no_nul()
    ensures
        !has_nul("name".spec_bytes()),
        !has_nul("message".spec_bytes()),
        !has_nul("Function".spec_bytes()),
{
    broadcast use vstd::string::is_ascii_spec_bytes;

    reveal_strlit("name");
    reveal_strlit("message");
    reveal_strlit("Function");
    assert(is_ascii("name"));
    assert(is_ascii("message"));
    assert(is_ascii("Function"));
}

/// Converts a name for the engine, reporting a NUL byte as a conversion error.
pub fn js_name(text: &str) -> (res: EsperantoResult<JSCString>)
    ensures
        match res {
            Ok(c) => !has_nul(text.spec_bytes()) && c@ == text.spec_bytes(),
            Err(e) => has_nul(text.spec_bytes()) && is_nul_error_for(e, text.spec_bytes()),
        },
{
    match JSCString::new(text) {
        Ok(c) => Ok(c),
        Err(e) => Err(EsperantoError::ConversionError(ConversionError::CouldNotConvertToJSString(e))),
    }
}

/// The text a value is shown with, given what the engine made of it: its
/// characters, or a note that it could not be represented.
pub open spec fn spec_display_text(text: EsperantoResult<Vec<u8>>) -> Seq<char> {
    match text {
        Ok(bytes) => utf8_lossy(bytes@),
        Err(e) => "[could not represent JSValue: "@ + e.spec_message() + "]"@,
    }
}

/// Renders a value's text, given what the engine made of it.
pub fn display_text_for(text: EsperantoResult<Vec<u8>>) -> (res: String)
    ensures
        res@ == spec_display_text(text),
{
    match text {
        Ok(bytes) => string_from_utf8_lossy(bytes.as_slice()),
        Err(e) => {
            let mut s = String::from_str("[could not represent JSValue: ");
            let inner = e.message();
            s.append(inner.as_str());
            s.append("]");
            s
        },
    }
}

/// A JavaScript value that belongs to one context.
pub struct JSValue<'r, 'c, E: JSEngine> {
    pub(crate) internal: E::Value,
    pub(crate) context: &'c JSContext<'r, E>,
}

impl<'r, 'c, E: JSEngine> JSValue<'r, 'c, E> {
    /// The engine's value behind this one.
    pub closed spec fn raw(&self) -> E::Value {
        self.internal
    }

    /// The engine context the value belongs to.
    pub closed spec fn context_handle(&self) -> E::Context {
        self.context.handle()
    }

    /// Pairs a value of the engine with the context it belongs to.
    pub fn wrap_internal(val: E::Value, new_context: &'c JSContext<'r, E>) -> (res: Self)
        ensures
            res.raw() == val,
            res.context_handle() == new_context.handle(),
    {
        JSValue { internal: val, context: new_context }
    }

    /// What an engine call that makes a value amounts to: the value it made,
    /// as a counted reference in the given context, or the engine's error
    /// unchanged.
    pub fn retained_result(raw: EsperantoResult<E::Value>, in_context: &'c JSContext<'r, E>) -> (res:
        EsperantoResult<Retain<Self>>)
        ensures
            is_retained_result(raw, res, in_context.handle()),
    {
        match raw {
            Ok(v) => Ok(Retain::wrap(Self::wrap_internal(v, in_context))),
            Err(e) => Err(e),
        }
    }

    /// The engine's value behind this one.
    pub fn internal(&self) -> (res: E::Value)
        ensures
            res == self.raw(),
    {
        self.internal
    }

    /// The context the value belongs to.
    pub fn context(&self) -> (res: &'c JSContext<'r, E>)
        ensures
            res.handle() == self.context_handle(),
    {
        self.context
    }

    /// Sets a property of this object. A name holding a NUL byte is refused
    /// before the engine is asked; otherwise the engine is asked to set the
    /// property of that name on this value to `value`, and its answer is the
    /// result.
    pub fn set_property(&self, name: &str, value: &Self) -> (res: EsperantoResult<()>)
        ensures
            has_nul(name.spec_bytes()) ==> (res matches Err(e) && is_nul_error_for(
                e,
                name.spec_bytes(),
            )),
            !has_nul(name.spec_bytes()) ==> exists|c: JSCString|
                c@ == name.spec_bytes() && #[trigger] call_ensures(
                    E::set_property,
                    (self.raw(), self.context_handle(), &c, value.raw()),
                    res,
                ),
    {
        let name = js_name(name)?;
        let r = E::set_property(self.internal, self.context.implementation(), &name, value.internal);
        assert(call_ensures(
            E::set_property,
            (self.raw(), self.context_handle(), &name, value.raw()),
            r,
        ));
        r
    }

    /// Reads a property of this object. A name holding a NUL byte is refused
    /// before the engine is asked; otherwise the engine is asked for the
    /// property of that name, and the value it gives belongs to this value's
    /// context.
    pub fn get_property(&self, name: &str) -> (res: EsperantoResult<Retain<JSValue<'r, 'c, E>>>)
        ensures
            has_nul(name.spec_bytes()) ==> (res matches Err(e) && is_nul_error_for(
                e,
                name.spec_bytes(),
            )),
            !has_nul(name.spec_bytes()) ==> exists|c: JSCString, raw: EsperantoResult<E::Value>|
                c@ == name.spec_bytes() && #[trigger] call_ensures(
                    E::get_property,
                    (self.raw(), self.context_handle(), &c),
                    raw,
                ) && is_retained_result(raw, res, self.context_handle()),
            res matches Ok(v) ==> v.retained().context_handle() == self.context_handle(),
    {
        let name = js_name(name)?;
        let raw = E::get_property(self.internal, self.context.implementation(), &name);
        let ghost answer = raw;
        let res = JSValue::retained_result(raw, self.context);
        assert(call_ensures(E::get_property, (self.raw(), self.context_handle(), &name), answer));
        res
    }

    /// Deletes a property of this object. A name holding a NUL byte is refused
    /// before the engine is asked; otherwise the engine's answer is the result.
    pub fn delete_property(&self, name: &str) -> (res: EsperantoResult<bool>)
        ensures
            has_nul(name.spec_bytes()) ==> (res matches Err(e) && is_nul_error_for(
                e,
                name.spec_bytes(),
            )),
            !has_nul(name.spec_bytes()) ==> exists|c: JSCString|
                c@ == name.spec_bytes() && #[trigger] call_ensures(
                    E::delete_property,
                    (self.raw(), self.context_handle(), &c),
                    res,
                ),
    {
        let name = js_name(name)?;
        let r = E::delete_property(self.internal, self.context.implementation(), &name);
        assert(call_ensures(E::delete_property, (self.raw(), self.context_handle(), &name), r));
        r
    }

    /// Creates a function from its body and the names of its arguments. The
    /// body is checked first, then the names in order; the first text holding
    /// a NUL byte is reported and the engine is not asked. Otherwise the
    /// engine is given the body and the names in order, and the function it
    /// makes belongs to the context.
    pub fn new_function(body: &str, arguments: Vec<&str>, in_context: &'c JSContext<'r, E>) -> (res:
        EsperantoResult<Retain<Self>>)
        ensures
            has_nul(body.spec_bytes()) ==> (res matches Err(e) && is_nul_error_for(
                e,
                body.spec_bytes(),
            )),
            forall|i: int|
                #![trigger arguments@[i]]
                0 <= i < arguments@.len() && !has_nul(body.spec_bytes()) && has_nul(
                    arguments@[i].spec_bytes(),
                ) && (forall|j: int| 0 <= j < i ==> !has_nul(arguments@[j].spec_bytes()))
                    ==> (res matches Err(e) && is_nul_error_for(e, arguments@[i].spec_bytes())),
            !has_nul(body.spec_bytes()) && (forall|i: int|
                0 <= i < arguments@.len() ==> !has_nul(#[trigger] arguments@[i].spec_bytes()))
                ==> exists|b: JSCString, names: Vec<JSCString>, raw: EsperantoResult<E::Value>|
                b@ == body.spec_bytes() && are_texts_of(names@, arguments@) && #[trigger] call_ensures(
                    E::new_function,
                    (&b, &names, in_context.handle()),
                    raw,
                ) && is_retained_result(raw, res, in_context.handle()),
            res matches Ok(v) ==> v.retained().context_handle() == in_context.handle(),
    {
        let body_cstr = js_name(body)?;
        let mut argument_names: Vec<JSCString> = Vec::new();
        let n = arguments.len();
        let mut i: usize = 0;
        while i < n
            invariant
                n == arguments@.len(),
                i <= n,
                !has_nul(body.spec_bytes()),
                forall|j: int| 0 <= j < i ==> !has_nul(#[trigger] arguments@[j].spec_bytes()),
                argument_names@.len() == i,
                forall|j: int|
                    0 <= j < i ==> (#[trigger] argument_names@[j])@ == arguments@[j].spec_bytes(),
            decreases n - i,
        {
            let name = js_name(arguments[i])?;
            argument_names.push(name);
            i = i + 1;
        }
        let raw = E::new_function(&body_cstr, &argument_names, in_context.implementation());
        let ghost answer = raw;
        let res = Self::retained_result(raw, in_context);
        assert(are_texts_of(argument_names@, arguments@));
        assert(call_ensures(
            E::new_function,
            (&body_cstr, &argument_names, in_context.handle()),
            answer,
        ));
        res
    }

    /// Creates an error object with a name and a message. The name is checked
    /// first, then the message; a text holding a NUL byte is reported and the
    /// engine is not asked. Otherwise the engine makes the error from the name
    /// and the message, in that order.
    pub fn new_error(name: &str, message: &str, in_context: &'c JSContext<'r, E>) -> (res:
        EsperantoResult<Self>)
        ensures
            has_nul(name.spec_bytes()) ==> (res matches Err(e) && is_nul_error_for(
                e,
                name.spec_bytes(),
            )),
            !has_nul(name.spec_bytes()) && has_nul(message.spec_bytes()) ==> (res matches Err(e)
                && is_nul_error_for(e, message.spec_bytes())),
            res is Ok <==> !has_nul(name.spec_bytes()) && !has_nul(message.spec_bytes()),
            res matches Ok(v) ==> v.context_handle() == in_context.handle() && exists|
                n: JSCString,
                m: JSCString,
            |
                n@ == name.spec_bytes() && m@ == message.spec_bytes() && #[trigger] call_ensures(
                    E::new_error,
                    (&n, &m, in_context.handle()),
                    v.raw(),
                ),
    {
        let name_cstr = js_name(name)?;
        let message_cstr = js_name(message)?;
        let created = E::new_error(&name_cstr, &message_cstr, in_context.implementation());
        let res = Self::wrap_internal(created, in_context);
        assert(call_ensures(E::new_error, (&name_cstr, &message_cstr, in_context.handle()), res.raw()));
        Ok(res)
    }

    /// Calls this value as a function with no bound `this`: the engine is
    /// given this value and the arguments' values in order.
    pub fn call_as_function(&self, arguments: Vec<&Self>) -> (res: EsperantoResult<
        Retain<JSValue<'r, 'c, E>>,
    >)
        ensures
            exists|args: Vec<E::Value>, raw: EsperantoResult<E::Value>|
                are_raws_of(args@, arguments@) && #[trigger] call_ensures(
                    E::call_as_function,
                    (self.raw(), args, None::<E::Value>, self.context_handle()),
                    raw,
                ) && is_retained_result(raw, res, self.context_handle()),
            res matches Ok(v) ==> v.retained().context_handle() == self.context_handle(),
    {
        self.call_as_function_bound(arguments, None)
    }

    /// Calls this value as a function, with `this` bound to `bind_to` when
    /// given: the engine is given this value, the arguments' values in order
    /// and the bound value.
    pub fn call_as_function_bound(&self, arguments: Vec<&Self>, bind_to: Option<&Self>) -> (res:
        EsperantoResult<Retain<JSValue<'r, 'c, E>>>)
        ensures
            exists|args: Vec<E::Value>, raw: EsperantoResult<E::Value>|
                are_raws_of(args@, arguments@) && #[trigger] call_ensures(
                    E::call_as_function,
                    (self.raw(), args, raw_of_option(bind_to), self.context_handle()),
                    raw,
                ) && is_retained_result(raw, res, self.context_handle()),
            res matches Ok(v) ==> v.retained().context_handle() == self.context_handle(),
    {
        let internals = raw_values(&arguments);
        let bound = match bind_to {
            Some(b) => Some(b.internal),
            None => None,
        };
        let ghost given = internals;
        let raw = E::call_as_function(self.internal, internals, bound, self.context.implementation());
        let ghost answer = raw;
        let res = Self::retained_result(raw, self.context);
        assert(call_ensures(
            E::call_as_function,
            (self.raw(), given, raw_of_option(bind_to), self.context_handle()),
            answer,
        ));
        res
    }

    /// Calls this value as a constructor: the engine is given this value and
    /// the arguments' values in order.
    pub fn call_as_constructor(&self, arguments: Vec<&Self>) -> (res: EsperantoResult<
        Retain<JSValue<'r, 'c, E>>,
    >)
        ensures
            exists|args: Vec<E::Value>, raw: EsperantoResult<E::Value>|
                are_raws_of(args@, arguments@) && #[trigger] call_ensures(
                    E::call_as_constructor,
                    (self.raw(), args, self.context_handle()),
                    raw,
                ) && is_retained_result(raw, res, self.context_handle()),
            res matches Ok(v) ==> v.retained().context_handle() == self.context_handle(),
    {
        let internals = raw_values(&arguments);
        let ghost given = internals;
        let raw = E::call_as_constructor(self.internal, internals, self.context.implementation());
        let ghost answer = raw;
        let res = Self::retained_result(raw, self.context);
        assert(call_ensures(
            E::call_as_constructor,
            (self.raw(), given, self.context_handle()),
            answer,
        ));
        res
    }

    /// The `undefined` value of a context, as the engine gives it.
    pub fn undefined(in_context: &'c JSContext<'r, E>) -> (res: Retain<Self>)
        ensures
            res.retained().context_handle() == in_context.handle(),
            call_ensures(E::undefined, (in_context.handle(),), res.retained().raw()),
    {
        let made = E::undefined(in_context.implementation());
        Retain::wrap(Self::wrap_internal(made, in_context))
    }

    /// Whether this value is an instance of the class whose prototype is
    /// `other`: the engine's answer for the two values.
    pub fn is_instance_of(&self, other: &Self) -> (res: EsperantoResult<bool>)
        ensures
            call_ensures(E::is_instance_of, (self.raw(), other.raw(), self.context_handle()), res),
    {
        E::is_instance_of(self.internal, other.internal, self.context.implementation())
    }

    /// Whether this value is a string: the engine's answer for it.
    pub fn is_string(&self) -> (res: bool)
        ensures
            call_ensures(E::is_string, (self.raw(), self.context_handle()), res),
    {
        E::is_string(self.internal, self.context.implementation())
    }

    /// Whether this value is an error object: the engine's answer for it.
    pub fn is_error(&self) -> (res: EsperantoResult<bool>)
        ensures
            call_ensures(E::is_error, (self.raw(), self.context_handle()), res),
    {
        E::is_error(self.internal, self.context.implementation())
    }

    /// Whether this value and `other` are the same value: the engine's answer
    /// for the two values.
    pub fn equals(&self, other: &Self) -> (res: bool)
        ensures
            call_ensures(E::equals, (self.raw(), other.raw(), self.context_handle()), res),
    {
        E::equals(self.internal, other.internal, self.context.implementation())
    }

    /// The text this value is shown with: the characters of the text the
    /// engine gives for it, or a note that the engine could not represent it.
    pub fn display_text(&self) -> (res: String)
        ensures
            exists|text: EsperantoResult<Vec<u8>>|
                #[trigger] call_ensures(E::to_cstring, (self.raw(), self.context_handle()), text)
                    && res@ == spec_display_text(text),
    {
        let text = E::to_cstring(self.internal, self.context.implementation());
        let ghost answer = text;
        let res = display_text_for(text);
        assert(call_ensures(E::to_cstring, (self.raw(), self.context_handle()), answer));
        res
    }

    /// Reads a native value out of this one, by the conversion of the target
    /// type.
    pub fn try_convert<T: TryConvertJSValue<'r, 'c, E>>(&self) -> (res: EsperantoResult<T>)
        ensures
            call_ensures(T::try_from_jsvalue, (self,), res),
    {
        T::try_from_jsvalue(self)
    }

    /// Makes a JavaScript value in a context out of a native one, by the
    /// conversion of the native type.
    pub fn try_new_from<T: TryJSValueFrom<'r, 'c, E>>(value: T, in_context: &'c JSContext<'r, E>) -> (res: EsperantoResult<Retain<Self>>)
        ensures
            call_ensures(T::try_jsvalue_from, (value, in_context), res),
    {
        T::try_jsvalue_from(value, in_context)
    }

    /// Takes a further counted reference to this value from the engine, in
    /// the same context.
    pub fn retain(&self) -> (res: Retain<Self>)
        ensures
            res.retained().context_handle() == self.context_handle(),
            call_ensures(E::retain, (self.raw(), self.context_handle()), res.retained().raw()),
    {
        let new_retained = E::retain(self.internal, self.context.implementation());
        Retain::wrap(Self::wrap_internal(new_retained, self.context))
    }

    /// Takes a counted reference to this value from the engine in another
    /// context of the same runtime.
    pub fn transfer_to_context<'n>(&self, new_context: &'n JSContext<'r, E>) -> (res: Retain<
        JSValue<'r, 'n, E>,
    >)
        ensures
            res.retained().context_handle() == new_context.handle(),
            call_ensures(E::retain, (self.raw(), new_context.handle()), res.retained().raw()),
    {
        let new_retain = E::retain(self.internal, new_context.implementation());
        Retain::wrap(JSValue::<'r, 'n, E>::wrap_internal(new_retain, new_context))
    }
}

/// `res` is what the library makes of the engine's answer `raw`: the value it
/// made, as a counted reference in the context `handle`, or its error.
pub open spec fn is_retained_result<'r, 'c, E: JSEngine>(
    raw: EsperantoResult<E::Value>,
    res: EsperantoResult<Retain<JSValue<'r, 'c, E>>>,
    handle: E::Context,
) -> bool {
    match raw {
        Ok(v) => res matches Ok(r) && r.retained().raw() == v && r.retained().context_handle()
            == handle,
        Err(e) => res == Err::<Retain<JSValue<'r, 'c, E>>, EsperantoError>(e),
    }
}

/// `raws` are the engine values behind `values`, in the same order.
pub open spec fn are_raws_of<'a, 'r, 'c, E: JSEngine>(
    raws: Seq<E::Value>,
    values: Seq<&'a JSValue<'r, 'c, E>>,
) -> bool {
    &&& raws.len() == values.len()
    &&& forall|i: int| 0 <= i < values.len() ==> raws[i] == (#[trigger] values[i]).raw()
}

/// `texts` are the engine texts of `strs`, in the same order.
pub open spec fn are_texts_of<'a>(texts: Seq<JSCString>, strs: Seq<&'a str>) -> bool {
    &&& texts.len() == strs.len()
    &&& forall|i: int| 0 <= i < strs.len() ==> (#[trigger] texts[i])@ == strs[i].spec_bytes()
}

/// The engine value behind an optional value.
pub open spec fn raw_of_option<'a, 'r, 'c, E: JSEngine>(value: Option<&'a JSValue<'r, 'c, E>>) -> Option<
    E::Value,
> {
    match value {
        Some(v) => Some(v.raw()),
        None => None,
    }
}

/// The engine values behind a list of values, in the same order.
fn raw_values<'r, 'c, E: JSEngine>(values: &Vec<&JSValue<'r, 'c, E>>) -> (res: Vec<E::Value>)
    ensures
        are_raws_of(res@, values@),
{
    let mut res: Vec<E::Value> = Vec::new();
    let n = values.len();
    let mut i: usize = 0;
    while i < n
        invariant
            n == values@.len(),
            i <= n,
            res@.len() == i,
            forall|k: int| 0 <= k < i ==> res@[k] == (#[trigger] values@[k]).raw(),
        decreases n - i,
    {
        res.push(values[i].internal);
        i = i + 1;
    }
    res
}

impl<'r, 'c, E: JSEngine> Retainable for JSValue<'r, 'c, E> {
    /// Gives the value's counted reference back to its engine.
    fn release(self)
        ensures
            call_ensures(E::release, (self.raw(), self.context_handle()), ()),
    {
        E::release(self.internal, self.context.implementation());
    }
}

/// Something that gives access to a value.
pub trait HasJSValue<'r, 'c, E: JSEngine> {
    fn get_value(&self) -> &JSValue<'r, 'c, E>;
}

impl<'a, 'r, 'c, E: JSEngine> HasJSValue<'r, 'c, E> for &'a JSValue<'r, 'c, E> {
    fn get_value(&self) -> (res: &JSValue<'r, 'c, E>)
        ensures
            *res == **self,
    {
        *self
    }
}

impl<'r, 'c, E: JSEngine> HasJSValue<'r, 'c, E> for Retain<JSValue<'r, 'c, E>> {
    fn get_value(&self) -> (res: &JSValue<'r, 'c, E>)
        ensures
            *res == self.retained(),
    {
        self.value()
    }
}

/// Something that can be viewed as a value.
pub trait AsJSValueRef<'r, 'c, E: JSEngine> {
    fn as_jsvalue(&self) -> &JSValue<'r, 'c, E>;
}

} // verus!
