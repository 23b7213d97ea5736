use vstd::prelude::*;

verus! {

/// Why a function could not be looked up in an execution engine.
#[derive(Debug, PartialEq, Eq, Structural, Clone, Copy)]
pub enum FunctionLookupError {
    /// The engine was built without JIT support.
    JITNotEnabled,
    /// The name does not resolve to a compiled function.
    FunctionNotFound,
}

impl FunctionLookupError {
    /// The human-readable message of this error.
    pub open spec fn message(self) -> Seq<char> {
        match self {
            FunctionLookupError::JITNotEnabled => "ExecutionEngine does not have JIT functionality enabled"@,
            FunctionLookupError::FunctionNotFound => "Function not found in ExecutionEngine"@,
        }
    }

    pub fn as_str(&self) -> (r: &'static str)
        ensures
            r@ == self.message(),
    {
        match self {
            FunctionLookupError::JITNotEnabled => "ExecutionEngine does not have JIT functionality enabled",
            FunctionLookupError::FunctionNotFound => "Function not found in ExecutionEngine",
        }
    }
}

/// Why a module could not be removed from an execution engine.
#[derive(Debug, PartialEq, Eq)]
pub enum RemoveModuleError {
    /// No engine owns the module.
    ModuleNotOwned,
    /// Another engine owns the module.
    IncorrectModuleOwner,
    /// The backend refused the removal; its diagnostic text, unparsed.
    LLVMError(String),
}

impl RemoveModuleError {
    /// The human-readable message of this error.
    pub open spec fn message(&self) -> Seq<char> {
        match self {
            RemoveModuleError::ModuleNotOwned => "Module is not owned by an Execution Engine"@,
            RemoveModuleError::IncorrectModuleOwner => "Module is not owned by this Execution Engine"@,
            RemoveModuleError::LLVMError(s) => s@,
        }
    }

    pub fn as_str(&self) -> (r: &str)
        ensures
            r@ == self.message(),
    {
        match self {
            RemoveModuleError::ModuleNotOwned => "Module is not owned by an Execution Engine",
            RemoveModuleError::IncorrectModuleOwner => "Module is not owned by this Execution Engine",
            RemoveModuleError::LLVMError(s) => s.as_str(),
        }
    }
}

} // verus!
