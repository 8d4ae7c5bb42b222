//! Engine-independent core of a JavaScript embedding layer.

pub mod backend;
pub mod context;
pub mod conversion;
pub mod cstring;
pub mod engine;
pub mod errors;
pub mod export;
pub mod laws;
pub mod registry;
pub mod result;
pub mod retain;
pub mod runtime;
pub mod text;
pub mod util;
pub mod value;

pub use context::{EvaluateMetadata, JSContext};
pub use engine::JSEngine;
pub use errors::{
    ConversionError, EsperantoError, EsperantoResult, JSContextError, JSExportError,
    JSRuntimeError, JSValueError, JavaScriptError,
};
pub use retain::{Retain, Retainable};
pub use runtime::JSRuntime;
pub use value::{AsJSValueRef, HasJSValue, JSValue};
pub use conversion::{JSValueFrom, TryConvertJSValue, TryJSValueFrom};
