# esperanto

A JavaScript embedding layer for native apps: create runtimes and contexts,
evaluate scripts, move values between Rust and JavaScript, and expose Rust
types to JavaScript. It runs on QuickJS or on JavaScriptCore.

## Layout

- `src/` is the engine-independent library, verified with Verus. The engine
  is a type parameter: everything the library asks of an engine is the
  `JSEngine` trait (`src/engine.rs`), which carries no contracts. The
  library's contracts state which engine operation each function asks for
  and with what (the values, the texts, their order), and what it makes of
  the engine's answer: which texts can cross into the engine (no NUL byte),
  how text read back is decoded, which error each failure becomes, how a call
  of an exported class is routed and answered, and how the classes defined
  for exported types are recorded. What the engine itself answers is not
  stated.
- `app/` holds the two engines (`quickjs.rs`, `jscore.rs`), which are calls
  into their C interfaces, and the parts of the interface that need function
  pointers, raw pointers or floating point numbers: exported classes
  (`export.rs`), number conversions (`numbers.rs`) and displayable error types
  (`errors.rs`).
- `tests/` drives the library through a small engine written for the tests.
