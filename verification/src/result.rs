use vstd::prelude::*;

use crate::conversion::TryConvertJSValue;
use crate::engine::JSEngine;
use crate::errors::EsperantoResult;
use crate::retain::Retain;
use crate::value::JSValue;

verus! {

/// Reads a native value out of a JavaScript value, by the conversion of the
/// target type.
pub fn convert<'r, 'c, E: JSEngine, T: TryConvertJSValue<'r, 'c, E>>(
    value: &JSValue<'r, 'c, E>,
) -> (res: EsperantoResult<T>)
    ensures
        call_ensures(T::try_from_jsvalue, (value,), res),
{
    T::try_from_jsvalue(value)
}

/// Takes a further counted reference to a value; this never fails.
pub fn retain<'r, 'c, E: JSEngine>(value: &JSValue<'r, 'c, E>) -> (res: EsperantoResult<
    Retain<JSValue<'r, 'c, E>>,
>)
    ensures
        res matches Ok(v) && v.retained().context_handle() == value.context_handle()
            && call_ensures(E::retain, (value.raw(), value.context_handle()), v.retained().raw()),
{
    Ok(value.retain())
}

} // verus!
