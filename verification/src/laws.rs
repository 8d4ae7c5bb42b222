//! Properties that relate several operations of the library.

use vstd::prelude::*;
use vstd::utf8::{encode_utf8, encode_utf8_decode_utf8, encode_utf8_valid_utf8};

use crate::conversion::spec_string_from_js_text;
use crate::errors::{EsperantoError, JSExportError};
use crate::registry::ClassRegistry;

verus! {

/// A native string crosses into JavaScript as the UTF-8 bytes of its text; if
/// the engine hands the same bytes back, reading the string out again gives
/// the original text.
pub proof fn lemma_string_round_trip(text: Seq<char>)
    ensures
        spec_string_from_js_text(encode_utf8(text)) == Some(text),
{
    encode_utf8_valid_utf8(text);
    encode_utf8_decode_utf8(text);
}

/// A native error crosses into JavaScript as an error object whose name and
/// message are the UTF-8 bytes of its name and text; reading them back out
/// gives the name of its kind (or, for an error that came from JavaScript, its
/// own name) and its text (or its own message).
pub proof fn lemma_native_error_round_trip(err: EsperantoError)
    ensures
        spec_string_from_js_text(encode_utf8(err.spec_js_error_name())) == Some(
            err.spec_js_error_name(),
        ),
        spec_string_from_js_text(encode_utf8(err.spec_js_error_message())) == Some(
            err.spec_js_error_message(),
        ),
        !(err is JavaScriptError) ==> err.spec_js_error_message() == err.spec_message(),
{
    lemma_string_round_trip(err.spec_js_error_name());
    lemma_string_round_trip(err.spec_js_error_message());
}

/// A native error that did not come from JavaScript is thrown into
/// JavaScript (by `settle_export_call`, through the error conversion) as an
/// error object named after its outer kind, whatever the error inside, and
/// carrying the error's own text; a class called through `new` without a
/// constructor, for one, throws an `ExportError` that names the class.
pub proof fn lemma_native_errors_are_named_after_their_kind(err: EsperantoError)
    ensures
        err is RuntimeError ==> err.spec_js_error_name() == "RuntimeError"@,
        err is ContextError ==> err.spec_js_error_name() == "ContextError"@,
        err is ValueError ==> err.spec_js_error_name() == "ValueError"@,
        err is ConversionError ==> err.spec_js_error_name() == "ConversionError"@,
        err is ExportError ==> err.spec_js_error_name() == "ExportError"@,
        err is CatchExceptionError ==> err.spec_js_error_name() == "CatchExceptionError"@,
        !(err is JavaScriptError) ==> err.spec_js_error_message() == err.spec_message(),
        err matches EsperantoError::ExportError(
            JSExportError::ConstructorCalledOnNonConstructableClass(class),
        ) ==> err.spec_js_error_name() == "ExportError"@ && err.spec_js_error_message()
            == "Class "@ + class@ + " does not have a constructor"@,
{
}

/// An error that came out of JavaScript goes back into JavaScript with the
/// name and message it came with.
pub proof fn lemma_javascript_error_keeps_name_and_message(err: EsperantoError)
    requires
        err is JavaScriptError,
    ensures
        err.spec_js_error_name() == err->JavaScriptError_0.name@,
        err.spec_js_error_message() == err->JavaScriptError_0.message@,
{
}

/// Recording a class for a type (`register`) makes a lookup of that type
/// (`lookup`) find it, and leaves the lookups of every other type as they were.
pub proof fn lemma_register_then_lookup<V>(
    before: ClassRegistry<V>,
    after: ClassRegistry<V>,
    key: u64,
    value: V,
    other: u64,
)
    requires
        after@ == before@.insert(key, value),
    ensures
        after.spec_lookup(key) == Some(value),
        other != key ==> after.spec_lookup(other) == before.spec_lookup(other),
{
}

/// Asking for the classes of a type (`get_or_create`) defines them at most
/// once: after a successful request the type is recorded with what the
/// request returned (what was already there, or what was made), so a second
/// request finds that record, returns it and makes nothing; no other type's
/// record changes.
pub proof fn lemma_get_or_create_defines_once<V>(
    before: ClassRegistry<V>,
    after: ClassRegistry<V>,
    key: u64,
    returned: V,
    other: u64,
)
    requires
        before@.contains_key(key) ==> returned == before@[key] && after@ == before@,
        !before@.contains_key(key) ==> after@ == before@.insert(key, returned),
    ensures
        after.spec_lookup(key) == Some(returned),
        before.spec_lookup(key) is Some ==> before.spec_lookup(key) == Some(returned),
        other != key ==> after.spec_lookup(other) == before.spec_lookup(other),
{
}

/// Forgetting the classes of a type (`remove`) makes a lookup of that type
/// find nothing, and leaves the lookups of every other type as they were.
pub proof fn lemma_remove_then_lookup<V>(
    before: ClassRegistry<V>,
    after: ClassRegistry<V>,
    key: u64,
    other: u64,
)
    requires
        after@ == before@.remove(key),
    ensures
        after.spec_lookup(key) is None,
        other != key ==> after.spec_lookup(other) == before.spec_lookup(other),
{
}

/// Recording a type that had no record and then forgetting it leaves the
/// registry as it was.
pub proof fn lemma_register_then_remove<V>(
    before: ClassRegistry<V>,
    middle: ClassRegistry<V>,
    after: ClassRegistry<V>,
    key: u64,
    value: V,
)
    requires
        before.spec_lookup(key) is None,
        middle@ == before@.insert(key, value),
        after@ == middle@.remove(key),
    ensures
        after@ == before@,
{
    assert(before@.insert(key, value).remove(key) =~= before@);
}

} // verus!
