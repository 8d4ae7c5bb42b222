use vstd::prelude::*;

verus! {

/// Failure to create a JavaScript runtime.
#[derive(Debug, Clone, Copy, PartialEq, Eq, Structural)]
pub enum JSRuntimeError {
    CouldNotCreateRuntime,
}

impl JSRuntimeError {
    /// The text this error is shown with.
    pub open spec fn spec_message(self) -> Seq<char> {
        match self {
            JSRuntimeError::CouldNotCreateRuntime => "Could not create a runtime"@,
        }
    }

    /// Renders the error as text.
    pub fn message(&self) -> (res: String)
        ensures
            res@ == self.spec_message(),
    {
        match self {
            JSRuntimeError::CouldNotCreateRuntime => String::from_str("Could not create a runtime"),
        }
    }
}

/// Failures around creating contexts and evaluating code in them.
#[derive(Debug, Clone, Copy, PartialEq, Eq, Structural)]
pub enum JSContextError {
    CouldNotCreateContext,
    CouldNotParseScript,
    RetainingWithWrongContext,
}

impl JSContextError {
    /// The text this error is shown with.
    pub open spec fn spec_message(self) -> Seq<char> {
        match self {
            JSContextError::CouldNotCreateContext => "Could not create a context"@,
            JSContextError::CouldNotParseScript => "Could not parse script provided"@,
            JSContextError::RetainingWithWrongContext =>
                "Cannot retain a JSValue from a different JSContext"@,
        }
    }

    /// Renders the error as text.
    pub fn message(&self) -> (res: String)
        ensures
            res@ == self.spec_message(),
    {
        match self {
            JSContextError::CouldNotCreateContext => String::from_str("Could not create a context"),
            JSContextError::CouldNotParseScript => String::from_str(
                "Could not parse script provided",
            ),
            JSContextError::RetainingWithWrongContext => String::from_str(
                "Cannot retain a JSValue from a different JSContext",
            ),
        }
    }
}

/// Failures of operations on individual values.
#[derive(Debug, Clone, Copy, PartialEq, Eq, Structural)]
pub enum JSValueError {
    CannotUpgradeWithDifferentContext,
    IsNotAnObject,
    IsNotANumber,
    MustUseNewWithConstuctor,
    CouldNotStorePrivateData,
}

impl JSValueError {
    /// The text this error is shown with.
    pub open spec fn spec_message(self) -> Seq<char> {
        match self {
            JSValueError::CannotUpgradeWithDifferentContext =>
                "Cannot upgrade the lifetime of a value from a different context"@,
            JSValueError::IsNotAnObject =>
                "This operation requires the JSValue to be an object, but you have provided a value"@,
            JSValueError::IsNotANumber => "This value is not a number"@,
            JSValueError::MustUseNewWithConstuctor =>
                "You must use 'new' when running a constructor function."@,
            JSValueError::CouldNotStorePrivateData => "Could not store private data in this value"@,
        }
    }

    /// Renders the error as text.
    pub fn message(&self) -> (res: String)
        ensures
            res@ == self.spec_message(),
    {
        match self {
            JSValueError::CannotUpgradeWithDifferentContext => String::from_str(
                "Cannot upgrade the lifetime of a value from a different context",
            ),
            JSValueError::IsNotAnObject => String::from_str(
                "This operation requires the JSValue to be an object, but you have provided a value",
            ),
            JSValueError::IsNotANumber => String::from_str("This value is not a number"),
            JSValueError::MustUseNewWithConstuctor => String::from_str(
                "You must use 'new' when running a constructor function.",
            ),
            JSValueError::CouldNotStorePrivateData => String::from_str(
                "Could not store private data in this value",
            ),
        }
    }
}

/// A text that was meant to cross into the engine holds a NUL byte.
#[derive(Debug, Clone, PartialEq, Eq)]
pub struct NulError {
    /// Index of the first NUL byte.
    pub nul_position: usize,
    /// The whole text, as bytes.
    pub bytes: Vec<u8>,
}

/// Bytes that came out of the engine are not valid UTF-8.
#[derive(Debug, Clone, Copy, PartialEq, Eq, Structural)]
pub struct Utf8Error {
    /// Length of the longest prefix that is valid UTF-8.
    pub valid_up_to: usize,
    /// Length of the invalid sequence, when one was found before the end.
    pub error_len: Option<usize>,
}

/// A number did not fit the integer type it was converted to.
#[derive(Debug, Clone, Copy, PartialEq, Eq, Structural)]
pub struct TryFromIntError;

/// Failures converting between native values and JavaScript values.
#[derive(Debug, Clone, PartialEq, Eq)]
pub enum ConversionError {
    CouldNotConvertToJSString(NulError),
    CouldNotConvertFromJSString(Utf8Error),
    JSValueWasNotAnError,
    CouldNotConvertToInteger(TryFromIntError),
}

impl ConversionError {
    /// The text this error is shown with.
    pub open spec fn spec_message(self) -> Seq<char> {
        match self {
            ConversionError::CouldNotConvertToJSString(_) =>
                "Could not convert this native string into a JS-compatible one"@,
            ConversionError::CouldNotConvertFromJSString(_) =>
                "Could not parse this JS string into a native-suitable one"@,
            ConversionError::JSValueWasNotAnError =>
                "Expected to receive an error but value is something else"@,
            ConversionError::CouldNotConvertToInteger(_) =>
                "Could not convert value into an integer"@,
        }
    }

    /// Renders the error as text.
    pub fn message(&self) -> (res: String)
        ensures
            res@ == self.spec_message(),
    {
        match self {
            ConversionError::CouldNotConvertToJSString(_) => String::from_str(
                "Could not convert this native string into a JS-compatible one",
            ),
            ConversionError::CouldNotConvertFromJSString(_) => String::from_str(
                "Could not parse this JS string into a native-suitable one",
            ),
            ConversionError::JSValueWasNotAnError => String::from_str(
                "Expected to receive an error but value is something else",
            ),
            ConversionError::CouldNotConvertToInteger(_) => String::from_str(
                "Could not convert value into an integer",
            ),
        }
    }
}

/// Failures in exposing native classes to JavaScript.
#[derive(Debug, Clone, Copy, PartialEq, Eq)]
pub enum JSExportError {
    ConstructorCalledOnNonConstructableClass(&'static str),
    CalledNonFunctionClass(&'static str),
    CouldNotConvertArgumentNumber(TryFromIntError),
    CouldNotGetNativeObject(&'static str),
    UnexpectedBehaviour,
}

impl JSExportError {
    /// The text this error is shown with.
    pub open spec fn spec_message(self) -> Seq<char> {
        match self {
            JSExportError::ConstructorCalledOnNonConstructableClass(name) =>
                "Class "@ + name@ + " does not have a constructor"@,
            JSExportError::CalledNonFunctionClass(name) =>
                "Class "@ + name@ + " cannot be called as a function"@,
            JSExportError::CouldNotConvertArgumentNumber(_) =>
                "Could not process the argument number value provided by the runtime"@,
            JSExportError::CouldNotGetNativeObject(name) =>
                "Could not get a reference to the underlying native object. Are you sure this is a "@
                    + name@ + "?"@,
            JSExportError::UnexpectedBehaviour =>
                "Something happened that we're not expecting at all"@,
        }
    }

    /// Renders the error as text.
    pub fn message(&self) -> (res: String)
        ensures
            res@ == self.spec_message(),
    {
        match self {
            JSExportError::ConstructorCalledOnNonConstructableClass(name) => {
                let mut s = String::from_str("Class ");
                s.append(name);
                s.append(" does not have a constructor");
                s
            },
            JSExportError::CalledNonFunctionClass(name) => {
                let mut s = String::from_str("Class ");
                s.append(name);
                s.append(" cannot be called as a function");
                s
            },
            JSExportError::CouldNotConvertArgumentNumber(_) => String::from_str(
                "Could not process the argument number value provided by the runtime",
            ),
            JSExportError::CouldNotGetNativeObject(name) => {
                let mut s = String::from_str(
                    "Could not get a reference to the underlying native object. Are you sure this is a ",
                );
                s.append(name);
                s.append("?");
                s
            },
            JSExportError::UnexpectedBehaviour => String::from_str(
                "Something happened that we're not expecting at all",
            ),
        }
    }
}

/// An error object that came out of JavaScript, held as plain text so that it
/// outlives the context it was thrown in.
#[derive(Debug, Clone, PartialEq, Eq)]
pub struct JavaScriptError {
    pub name: String,
    pub message: String,
}

impl JavaScriptError {
    /// Builds an error from its name and message.
    pub fn new(name: String, message: String) -> (res: Self)
        ensures
            res.name == name,
            res.message == message,
    {
        JavaScriptError { name, message }
    }

    /// The text this error is shown with: the name, a colon and the message.
    pub open spec fn spec_display(self) -> Seq<char> {
        self.name@ + ": "@ + self.message@
    }

    /// Renders the error as text.
    pub fn display(&self) -> (res: String)
        ensures
            res@ == self.spec_display(),
    {
        let mut s = self.name.clone();
        s.append(": ");
        s.append(self.message.as_str());
        s
    }
}

/// Failures while finding out what went wrong in JavaScript.
#[derive(Debug, PartialEq, Eq)]
pub enum CatchExceptionError {
    CouldNotCreateIdentifierString(NulError),
    CouldNotGetDetailsOfError(EsperantoError),
    UnknownExceptionOccurred,
    IsNotAnError,
}

/// Every error the library returns.
#[derive(Debug, PartialEq, Eq)]
pub enum EsperantoError {
    RuntimeError(JSRuntimeError),
    ContextError(JSContextError),
    ValueError(JSValueError),
    JavaScriptError(JavaScriptError),
    ConversionError(ConversionError),
    CatchExceptionError(Box<CatchExceptionError>),
    ExportError(JSExportError),
}

/// The result type of most operations of the library.
pub type EsperantoResult<T> = Result<T, EsperantoError>;

impl CatchExceptionError {
    /// The text this error is shown with.
    pub open spec fn spec_message(self) -> Seq<char>
        decreases self,
    {
        match self {
            CatchExceptionError::CouldNotCreateIdentifierString(_) =>
                "Couldn't create the strings used to get error details. This should never happen!"@,
            CatchExceptionError::CouldNotGetDetailsOfError(inner) =>
                "Could not get the details of the error that occurred ("@ + inner.spec_message()
                    + ")"@,
            CatchExceptionError::UnknownExceptionOccurred =>
                "An unknown problem occurred when trying to get details of an error"@,
            CatchExceptionError::IsNotAnError => "This JavaScript value is not an error"@,
        }
    }

    /// Renders the error as text.
    pub fn message(&self) -> (res: String)
        ensures
            res@ == self.spec_message(),
        decreases self,
    {
        match self {
            CatchExceptionError::CouldNotCreateIdentifierString(_) => String::from_str(
                "Couldn't create the strings used to get error details. This should never happen!",
            ),
            CatchExceptionError::CouldNotGetDetailsOfError(inner) => {
                let mut s = String::from_str("Could not get the details of the error that occurred (");
                let inner_text = inner.message();
                s.append(inner_text.as_str());
                s.append(")");
                s
            },
            CatchExceptionError::UnknownExceptionOccurred => String::from_str(
                "An unknown problem occurred when trying to get details of an error",
            ),
            CatchExceptionError::IsNotAnError => String::from_str(
                "This JavaScript value is not an error",
            ),
        }
    }
}

impl EsperantoError {
    /// The text this error is shown with: that of the error it wraps.
    pub open spec fn spec_message(self) -> Seq<char>
        decreases self,
    {
        match self {
            EsperantoError::RuntimeError(e) => e.spec_message(),
            EsperantoError::ContextError(e) => e.spec_message(),
            EsperantoError::ValueError(e) => e.spec_message(),
            EsperantoError::JavaScriptError(e) => e.spec_display(),
            EsperantoError::ConversionError(e) => e.spec_message(),
            EsperantoError::CatchExceptionError(e) => (*e).spec_message(),
            EsperantoError::ExportError(e) => e.spec_message(),
        }
    }

    /// Renders the error as text.
    pub fn message(&self) -> (res: String)
        ensures
            res@ == self.spec_message(),
        decreases self,
    {
        match self {
            EsperantoError::RuntimeError(e) => e.message(),
            EsperantoError::ContextError(e) => e.message(),
            EsperantoError::ValueError(e) => e.message(),
            EsperantoError::JavaScriptError(e) => e.display(),
            EsperantoError::ConversionError(e) => e.message(),
            EsperantoError::CatchExceptionError(e) => e.message(),
            EsperantoError::ExportError(e) => e.message(),
        }
    }

    /// The name a JavaScript error object made from this error carries.
    pub open spec fn spec_js_error_name(self) -> Seq<char> {
        match self {
            EsperantoError::RuntimeError(_) => "RuntimeError"@,
            EsperantoError::CatchExceptionError(_) => "CatchExceptionError"@,
            EsperantoError::ContextError(_) => "ContextError"@,
            EsperantoError::ConversionError(_) => "ConversionError"@,
            EsperantoError::ExportError(_) => "ExportError"@,
            EsperantoError::ValueError(_) => "ValueError"@,
            EsperantoError::JavaScriptError(e) => e.name@,
        }
    }

    /// The message a JavaScript error object made from this error carries.
    pub open spec fn spec_js_error_message(self) -> Seq<char> {
        match self {
            EsperantoError::JavaScriptError(e) => e.message@,
            _ => self.spec_message(),
        }
    }

    /// The name and message of the JavaScript error object this error turns into
    /// when it is handed back to JavaScript. An error that came out of JavaScript
    /// keeps its own name and message; every other error is named after its kind
    /// and carries its text.
    pub fn js_error_parts(&self) -> (res: (String, String))
        ensures
            res.0@ == self.spec_js_error_name(),
            res.1@ == self.spec_js_error_message(),
    {
        match self {
            EsperantoError::RuntimeError(e) => (String::from_str("RuntimeError"), e.message()),
            EsperantoError::CatchExceptionError(e) => (
                String::from_str("CatchExceptionError"),
                e.message(),
            ),
            EsperantoError::ContextError(e) => (String::from_str("ContextError"), e.message()),
            EsperantoError::ConversionError(e) => (
                String::from_str("ConversionError"),
                e.message(),
            ),
            EsperantoError::ExportError(e) => (String::from_str("ExportError"), e.message()),
            EsperantoError::ValueError(e) => (String::from_str("ValueError"), e.message()),
            EsperantoError::JavaScriptError(e) => (e.name.clone(), e.message.clone()),
        }
    }
}

impl From<JSRuntimeError> for EsperantoError {
    fn from(err: JSRuntimeError) -> (res: Self) {
        EsperantoError::RuntimeError(err)
    }
}

impl vstd::std_specs::convert::FromSpecImpl<JSRuntimeError> for EsperantoError {
    open spec fn obeys_from_spec() -> bool {
        true
    }

    open spec fn from_spec(err: JSRuntimeError) -> Self {
        EsperantoError::RuntimeError(err)
    }
}

impl From<JSContextError> for EsperantoError {
    fn from(err: JSContextError) -> (res: Self) {
        EsperantoError::ContextError(err)
    }
}

impl vstd::std_specs::convert::FromSpecImpl<JSContextError> for EsperantoError {
    open spec fn obeys_from_spec() -> bool {
        true
    }

    open spec fn from_spec(err: JSContextError) -> Self {
        EsperantoError::ContextError(err)
    }
}

impl From<JSValueError> for EsperantoError {
    fn from(err: JSValueError) -> (res: Self) {
        EsperantoError::ValueError(err)
    }
}

impl vstd::std_specs::convert::FromSpecImpl<JSValueError> for EsperantoError {
    open spec fn obeys_from_spec() -> bool {
        true
    }

    open spec fn from_spec(err: JSValueError) -> Self {
        EsperantoError::ValueError(err)
    }
}

impl From<JavaScriptError> for EsperantoError {
    fn from(err: JavaScriptError) -> (res: Self) {
        EsperantoError::JavaScriptError(err)
    }
}

impl vstd::std_specs::convert::FromSpecImpl<JavaScriptError> for EsperantoError {
    open spec fn obeys_from_spec() -> bool {
        true
    }

    open spec fn from_spec(err: JavaScriptError) -> Self {
        EsperantoError::JavaScriptError(err)
    }
}

impl From<ConversionError> for EsperantoError {
    fn from(err: ConversionError) -> (res: Self) {
        EsperantoError::ConversionError(err)
    }
}

impl vstd::std_specs::convert::FromSpecImpl<ConversionError> for EsperantoError {
    open spec fn obeys_from_spec() -> bool {
        true
    }

    open spec fn from_spec(err: ConversionError) -> Self {
        EsperantoError::ConversionError(err)
    }
}

impl From<Box<CatchExceptionError>> for EsperantoError {
    fn from(err: Box<CatchExceptionError>) -> (res: Self) {
        EsperantoError::CatchExceptionError(err)
    }
}

impl vstd::std_specs::convert::FromSpecImpl<Box<CatchExceptionError>> for EsperantoError {
    open spec fn obeys_from_spec() -> bool {
        true
    }

    open spec fn from_spec(err: Box<CatchExceptionError>) -> Self {
        EsperantoError::CatchExceptionError(err)
    }
}

impl From<JSExportError> for EsperantoError {
    fn from(err: JSExportError) -> (res: Self) {
        EsperantoError::ExportError(err)
    }
}

impl vstd::std_specs::convert::FromSpecImpl<JSExportError> for EsperantoError {
    open spec fn obeys_from_spec() -> bool {
        true
    }

    open spec fn from_spec(err: JSExportError) -> Self {
        EsperantoError::ExportError(err)
    }
}

/// A text holding a NUL byte is a failure to convert it into a JavaScript string.
impl From<NulError> for EsperantoError {
    fn from(err: NulError) -> (res: Self) {
        EsperantoError::ConversionError(ConversionError::CouldNotConvertToJSString(err))
    }
}

impl vstd::std_specs::convert::FromSpecImpl<NulError> for EsperantoError {
    open spec fn obeys_from_spec() -> bool {
        true
    }

    open spec fn from_spec(err: NulError) -> Self {
        EsperantoError::ConversionError(ConversionError::CouldNotConvertToJSString(err))
    }
}

} // verus!
