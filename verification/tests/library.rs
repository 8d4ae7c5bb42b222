use esperanto::backend::{
    engine_flag, instance_of_answer, line_number_for, number_status, require_object,
    settle_exception,
};
use esperanto::context::EvaluateMetadata;
use esperanto::conversion::{js_error_from_texts, require_error, string_from_js_text};
use esperanto::cstring::{bytes_before_nul, JSCString};
use esperanto::errors::{
    CatchExceptionError, ConversionError, EsperantoError, JSContextError, JSExportError,
    JSRuntimeError, JSValueError, JavaScriptError, NulError, TryFromIntError, Utf8Error,
};
use esperanto::export::{
    callback_available, check_native_type, class_call_target, class_hooks, is_constructor_call,
    ExportCallTarget,
};
use esperanto::registry::ClassRegistry;
use esperanto::retain::{Retain, Retainable};
use esperanto::util::StoredOrReferenced;
use esperanto::value::display_text_for;

#[test]
fn cstring_accepts_text_without_nul() {
    let c = JSCString::new("hello").unwrap();
    assert_eq!(c.as_bytes(), b"hello");
    let empty = JSCString::new("").unwrap();
    assert_eq!(empty.as_bytes(), b"");
    let wide = JSCString::new("h\u{e9}").unwrap();
    assert_eq!(wide.as_bytes(), "h\u{e9}".as_bytes());
}

#[test]
fn cstring_reports_first_nul() {
    let err = JSCString::new("ab\0c\0").unwrap_err();
    assert_eq!(err.nul_position, 2);
    assert_eq!(err.bytes, b"ab\0c\0".to_vec());
    let err = JSCString::new("\0").unwrap_err();
    assert_eq!(err.nul_position, 0);
}

#[test]
fn buffers_are_cut_at_the_first_nul() {
    assert_eq!(bytes_before_nul(b"hello\0world\0"), b"hello".to_vec());
    assert_eq!(bytes_before_nul(b"no terminator"), b"no terminator".to_vec());
    assert_eq!(bytes_before_nul(b"\0"), Vec::<u8>::new());
    assert_eq!(bytes_before_nul(b""), Vec::<u8>::new());
}

#[test]
fn evaluate_metadata_checks_file_name() {
    let m = EvaluateMetadata::new("script.js", 12).unwrap();
    assert_eq!(m.filename.as_bytes(), b"script.js");
    assert_eq!(m.line_number, 12);
    let err = EvaluateMetadata::new("scr\0ipt.js", 12).unwrap_err();
    assert_eq!(err.nul_position, 3);
}

#[test]
fn error_messages() {
    assert_eq!(JSRuntimeError::CouldNotCreateRuntime.message(), "Could not create a runtime");
    assert_eq!(JSContextError::CouldNotCreateContext.message(), "Could not create a context");
    assert_eq!(JSContextError::CouldNotParseScript.message(), "Could not parse script provided");
    assert_eq!(
        JSContextError::RetainingWithWrongContext.message(),
        "Cannot retain a JSValue from a different JSContext"
    );
    assert_eq!(
        JSValueError::CannotUpgradeWithDifferentContext.message(),
        "Cannot upgrade the lifetime of a value from a different context"
    );
    assert_eq!(
        JSValueError::IsNotAnObject.message(),
        "This operation requires the JSValue to be an object, but you have provided a value"
    );
    assert_eq!(JSValueError::IsNotANumber.message(), "This value is not a number");
    assert_eq!(
        JSValueError::MustUseNewWithConstuctor.message(),
        "You must use 'new' when running a constructor function."
    );
    assert_eq!(
        JSValueError::CouldNotStorePrivateData.message(),
        "Could not store private data in this value"
    );
    let nul = NulError { nul_position: 0, bytes: vec![0] };
    assert_eq!(
        ConversionError::CouldNotConvertToJSString(nul).message(),
        "Could not convert this native string into a JS-compatible one"
    );
    let utf8 = Utf8Error { valid_up_to: 0, error_len: Some(1) };
    assert_eq!(
        ConversionError::CouldNotConvertFromJSString(utf8).message(),
        "Could not parse this JS string into a native-suitable one"
    );
    assert_eq!(
        ConversionError::JSValueWasNotAnError.message(),
        "Expected to receive an error but value is something else"
    );
    assert_eq!(
        ConversionError::CouldNotConvertToInteger(TryFromIntError).message(),
        "Could not convert value into an integer"
    );
}

#[test]
fn export_error_messages_name_the_class() {
    assert_eq!(
        JSExportError::ConstructorCalledOnNonConstructableClass("Test").message(),
        "Class Test does not have a constructor"
    );
    assert_eq!(
        JSExportError::CalledNonFunctionClass("Test").message(),
        "Class Test cannot be called as a function"
    );
    assert_eq!(
        JSExportError::CouldNotConvertArgumentNumber(TryFromIntError).message(),
        "Could not process the argument number value provided by the runtime"
    );
    assert_eq!(
        JSExportError::CouldNotGetNativeObject("Test").message(),
        "Could not get a reference to the underlying native object. Are you sure this is a Test?"
    );
    assert_eq!(
        JSExportError::UnexpectedBehaviour.message(),
        "Something happened that we're not expecting at all"
    );
}

#[test]
fn javascript_error_display() {
    let e = JavaScriptError::new("TypeError".to_string(), "bad thing".to_string());
    assert_eq!(e.name, "TypeError");
    assert_eq!(e.message, "bad thing");
    assert_eq!(e.display(), "TypeError: bad thing");
}

#[test]
fn wrapping_error_shows_inner_text() {
    let e = EsperantoError::ContextError(JSContextError::CouldNotParseScript);
    assert_eq!(e.message(), "Could not parse script provided");
    let e = EsperantoError::JavaScriptError(JavaScriptError::new("E".to_string(), "m".to_string()));
    assert_eq!(e.message(), "E: m");
    let nested = CatchExceptionError::CouldNotGetDetailsOfError(EsperantoError::ValueError(
        JSValueError::IsNotANumber,
    ));
    assert_eq!(
        nested.message(),
        "Could not get the details of the error that occurred (This value is not a number)"
    );
    let e = EsperantoError::CatchExceptionError(Box::new(nested));
    assert_eq!(
        e.message(),
        "Could not get the details of the error that occurred (This value is not a number)"
    );
    assert_eq!(
        CatchExceptionError::UnknownExceptionOccurred.message(),
        "An unknown problem occurred when trying to get details of an error"
    );
    assert_eq!(CatchExceptionError::IsNotAnError.message(), "This JavaScript value is not an error");
    assert_eq!(
        CatchExceptionError::CouldNotCreateIdentifierString(NulError { nul_position: 1, bytes: vec![1, 0] })
            .message(),
        "Couldn't create the strings used to get error details. This should never happen!"
    );
}

#[test]
fn errors_convert_into_esperanto_error() {
    assert_eq!(
        EsperantoError::from(JSRuntimeError::CouldNotCreateRuntime),
        EsperantoError::RuntimeError(JSRuntimeError::CouldNotCreateRuntime)
    );
    assert_eq!(
        EsperantoError::from(JSContextError::CouldNotCreateContext),
        EsperantoError::ContextError(JSContextError::CouldNotCreateContext)
    );
    assert_eq!(
        EsperantoError::from(JSValueError::IsNotAnObject),
        EsperantoError::ValueError(JSValueError::IsNotAnObject)
    );
    assert_eq!(
        EsperantoError::from(JSExportError::UnexpectedBehaviour),
        EsperantoError::ExportError(JSExportError::UnexpectedBehaviour)
    );
    assert_eq!(
        EsperantoError::from(ConversionError::JSValueWasNotAnError),
        EsperantoError::ConversionError(ConversionError::JSValueWasNotAnError)
    );
    assert_eq!(
        EsperantoError::from(Box::new(CatchExceptionError::IsNotAnError)),
        EsperantoError::CatchExceptionError(Box::new(CatchExceptionError::IsNotAnError))
    );
    let j = JavaScriptError::new("A".to_string(), "B".to_string());
    assert_eq!(EsperantoError::from(j.clone()), EsperantoError::JavaScriptError(j));
    let nul = NulError { nul_position: 0, bytes: vec![0] };
    assert_eq!(
        EsperantoError::from(nul.clone()),
        EsperantoError::ConversionError(ConversionError::CouldNotConvertToJSString(nul))
    );
}

#[test]
fn js_error_parts_name_the_kind() {
    let cases = vec![
        (EsperantoError::RuntimeError(JSRuntimeError::CouldNotCreateRuntime), "RuntimeError", "Could not create a runtime"),
        (EsperantoError::ContextError(JSContextError::CouldNotCreateContext), "ContextError", "Could not create a context"),
        (EsperantoError::ValueError(JSValueError::IsNotANumber), "ValueError", "This value is not a number"),
        (EsperantoError::ConversionError(ConversionError::JSValueWasNotAnError), "ConversionError", "Expected to receive an error but value is something else"),
        (EsperantoError::ExportError(JSExportError::UnexpectedBehaviour), "ExportError", "Something happened that we're not expecting at all"),
        (EsperantoError::CatchExceptionError(Box::new(CatchExceptionError::IsNotAnError)), "CatchExceptionError", "This JavaScript value is not an error"),
    ];
    for (err, name, message) in cases {
        let (n, m) = err.js_error_parts();
        assert_eq!(n, name);
        assert_eq!(m, message);
    }
    let js = EsperantoError::JavaScriptError(JavaScriptError::new("RangeError".to_string(), "too big".to_string()));
    let (n, m) = js.js_error_parts();
    assert_eq!(n, "RangeError");
    assert_eq!(m, "too big");
}

#[test]
fn string_from_js_text_decodes_utf8() {
    assert_eq!(string_from_js_text(b"hello".to_vec()).unwrap(), "hello");
    assert_eq!(string_from_js_text("h\u{e9}".as_bytes().to_vec()).unwrap(), "h\u{e9}");
    match string_from_js_text(vec![b'a', b'b', 0xff, b'c']) {
        Err(EsperantoError::ConversionError(ConversionError::CouldNotConvertFromJSString(e))) => {
            assert_eq!(e.valid_up_to, 2);
            assert_eq!(e.error_len, Some(1));
        }
        other => panic!("unexpected {:?}", other),
    }
    match string_from_js_text(vec![b'a', 0xe2, 0x82]) {
        Err(EsperantoError::ConversionError(ConversionError::CouldNotConvertFromJSString(e))) => {
            assert_eq!(e.valid_up_to, 1);
            assert_eq!(e.error_len, None);
        }
        other => panic!("unexpected {:?}", other),
    }
}

#[test]
fn js_error_from_texts_replaces_invalid_bytes() {
    let e = js_error_from_texts(b"Error", b"bad \xff byte");
    assert_eq!(e.name, "Error");
    assert_eq!(e.message, "bad \u{fffd} byte");
}

#[test]
fn display_text_for_value_or_failure() {
    assert_eq!(display_text_for(Ok(b"12".to_vec())), "12");
    assert_eq!(display_text_for(Ok(vec![b'x', 0xff])), "x\u{fffd}");
    assert_eq!(
        display_text_for(Err(EsperantoError::ValueError(JSValueError::IsNotAnObject))),
        "[could not represent JSValue: This operation requires the JSValue to be an object, but you have provided a value]"
    );
}

#[test]
fn registry_records_and_forgets_classes() {
    let mut registry: ClassRegistry<(u32, u32)> = ClassRegistry::new();
    assert!(registry.is_empty());
    assert_eq!(registry.lookup(7), None);
    registry.register(7, (1, 2));
    registry.register(9, (3, 4));
    assert!(!registry.is_empty());
    assert_eq!(registry.lookup(7), Some((1, 2)));
    registry.register(7, (5, 6));
    assert_eq!(registry.lookup(7), Some((5, 6)));
    assert_eq!(registry.remove(7).unwrap(), (5, 6));
    assert_eq!(registry.lookup(7), None);
    assert_eq!(registry.lookup(9), Some((3, 4)));
    assert_eq!(
        registry.remove(7).unwrap_err(),
        EsperantoError::ExportError(JSExportError::UnexpectedBehaviour)
    );
    assert_eq!(registry.remove(9).unwrap(), (3, 4));
    assert!(registry.is_empty());
}

#[test]
fn registry_defines_a_class_once() {
    let mut registry: ClassRegistry<u32> = ClassRegistry::new();
    let mut made = 0;
    let first = registry.get_or_create(3, || {
        made += 1;
        Ok(40)
    });
    assert_eq!(first, Ok(40));
    let second = registry.get_or_create(3, || {
        made += 1;
        Ok(41)
    });
    assert_eq!(second, Ok(40));
    assert_eq!(made, 1);
    let failed = registry.get_or_create(4, || {
        Err(EsperantoError::ExportError(JSExportError::UnexpectedBehaviour))
    });
    assert_eq!(failed, Err(EsperantoError::ExportError(JSExportError::UnexpectedBehaviour)));
    assert_eq!(registry.lookup(4), None);
    assert_eq!(registry.lookup(3), Some(40));
}

#[test]
fn class_call_target_picks_the_callback() {
    assert_eq!(class_call_target(true, true, false, "Test").unwrap(), ExportCallTarget::Constructor);
    assert_eq!(class_call_target(false, false, true, "Test").unwrap(), ExportCallTarget::Function);
    assert_eq!(
        class_call_target(true, false, true, "Test").unwrap_err(),
        EsperantoError::ExportError(JSExportError::ConstructorCalledOnNonConstructableClass("Test"))
    );
    match class_call_target(false, true, false, "Test") {
        Err(EsperantoError::JavaScriptError(e)) => {
            assert_eq!(e.name, "TypeError");
            assert_eq!(e.message, "Class constructor Test cannot be invoked without 'new'");
        }
        other => panic!("unexpected {:?}", other),
    }
}

#[test]
fn constructor_flag_and_hooks() {
    assert!(is_constructor_call(1, 1));
    assert!(is_constructor_call(3, 1));
    assert!(!is_constructor_call(2, 1));
    let hooks = class_hooks(true, false);
    assert!(hooks.prototype_call && hooks.constructor_bit && hooks.call_as_constructor);
    assert!(!hooks.call_as_function);
    let hooks = class_hooks(false, false);
    assert!(!hooks.prototype_call && !hooks.constructor_bit);
    let hooks = class_hooks(false, true);
    assert!(hooks.prototype_call && !hooks.constructor_bit && hooks.call_as_function);
    assert!(callback_available(true, "Test").is_ok());
    assert_eq!(
        callback_available(false, "Test").unwrap_err(),
        EsperantoError::ExportError(JSExportError::ConstructorCalledOnNonConstructableClass("Test"))
    );
}

#[test]
fn native_type_check() {
    assert!(check_native_type(42, 42, "Test").is_ok());
    assert_eq!(
        check_native_type(42, 43, "Test").unwrap_err(),
        EsperantoError::ExportError(JSExportError::CouldNotGetNativeObject("Test"))
    );
}

#[test]
fn backend_answers() {
    assert_eq!(settle_exception(5, None).unwrap(), 5);
    let js = JavaScriptError::new("Error".to_string(), "boom".to_string());
    assert_eq!(
        settle_exception(5, Some(Ok(js.clone()))).unwrap_err(),
        EsperantoError::JavaScriptError(js)
    );
    assert_eq!(
        settle_exception(5, Some(Err(EsperantoError::ValueError(JSValueError::IsNotAnObject))))
            .unwrap_err(),
        EsperantoError::ValueError(JSValueError::IsNotAnObject)
    );
    assert!(engine_flag(1));
    assert!(!engine_flag(0));
    assert!(!engine_flag(-1));
    assert_eq!(instance_of_answer(1).unwrap(), true);
    assert_eq!(instance_of_answer(0).unwrap(), false);
    assert_eq!(
        instance_of_answer(-1).unwrap_err(),
        EsperantoError::CatchExceptionError(Box::new(CatchExceptionError::UnknownExceptionOccurred))
    );
    assert!(number_status(0).is_ok());
    assert_eq!(
        number_status(-1).unwrap_err(),
        EsperantoError::ValueError(JSValueError::IsNotANumber)
    );
    assert!(require_object(true).is_ok());
    assert_eq!(
        require_object(false).unwrap_err(),
        EsperantoError::ValueError(JSValueError::IsNotAnObject)
    );
    let m = EvaluateMetadata::new("a.js", 40).unwrap();
    assert_eq!(line_number_for(Some(&m)), 40);
    assert_eq!(line_number_for(None), 1);
}

struct Counted {
    releases: std::rc::Rc<std::cell::Cell<u32>>,
    id: u32,
}

impl Retainable for Counted {
    fn release(self) {
        self.releases.set(self.releases.get() + 1);
    }
}

#[test]
fn retain_wraps_and_releases_once() {
    let releases = std::rc::Rc::new(std::cell::Cell::new(0));
    let handle = Retain::wrap(Counted { releases: releases.clone(), id: 3 });
    assert_eq!(handle.value().id, 3);
    assert_eq!(handle.id, 3);
    assert_eq!(releases.get(), 0);
    handle.release();
    assert_eq!(releases.get(), 1);
}

#[test]
fn stored_or_referenced_gives_the_value() {
    let stored = StoredOrReferenced::from_box(Box::new(5));
    assert_eq!(*stored.get(), 5);
    let seven = 7;
    let referenced = StoredOrReferenced::from_ref(&seven);
    assert_eq!(*referenced.get(), 7);
}

#[test]
fn only_error_objects_are_copied_as_errors() {
    assert_eq!(require_error(true), Ok(()));
    assert_eq!(
        require_error(false),
        Err(EsperantoError::ConversionError(ConversionError::JSValueWasNotAnError))
    );
}
