//! Ownership and lifetime protocol of a JIT / interpreter execution engine.
//!
//! The library keeps the bookkeeping that decides when a native engine is
//! disposed, which engine owns a module, and how the results of native
//! function lookups become values or errors. Each native call is made by the
//! embedding code; the library takes what came back as plain values.

pub mod engine;
pub mod error;
pub mod handle;
pub mod module;
pub mod private;
pub mod symbol;
pub mod values;

pub use engine::{ExecutionEngine, ModuleOp, Symbol};
pub use error::{FunctionLookupError, RemoveModuleError};
pub use handle::{NativeHandle, RefOp, RefState, SharedEngine};
pub use module::{Module, ModuleState};
pub use private::Sealed;
pub use symbol::UnsafeFunctionPointer;
pub use values::{FloatType, FunctionValue, GenericValue, TargetData};
