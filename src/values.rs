use vstd::prelude::*;
use crate::handle::NativeHandle;

verus! {

/// A function of a module, by its native handle.
#[derive(Debug, Clone, Copy, PartialEq, Eq, Structural)]
pub struct FunctionValue {
    fn_value: NativeHandle,
}

impl View for FunctionValue {
    type V = usize;

    closed spec fn view(&self) -> usize {
        self.fn_value@
    }
}

impl FunctionValue {
    /// A function value for a handle the backend returned; `None` for null.
    pub fn new(raw: usize) -> (r: Option<FunctionValue>)
        ensures
            r is None <==> raw == 0,
            r matches Some(f) ==> f@ == raw,
    {
        match NativeHandle::from_raw(raw) {
            Some(h) => Some(FunctionValue { fn_value: h }),
            None => None,
        }
    }

    pub fn as_value_ref(&self) -> (r: usize)
        ensures
            r == self@,
            r != 0,
    {
        self.fn_value.addr()
    }
}

/// An argument or a result of a function run by the engine.
#[derive(Debug, Clone, Copy, PartialEq, Eq, Structural)]
pub struct GenericValue {
    generic_value: NativeHandle,
}

impl View for GenericValue {
    type V = usize;

    closed spec fn view(&self) -> usize {
        self.generic_value@
    }
}

impl GenericValue {
    pub fn new(handle: NativeHandle) -> (r: GenericValue)
        ensures
            r@ == handle@,
    {
        GenericValue { generic_value: handle }
    }

    pub fn as_raw(&self) -> (r: usize)
        ensures
            r == self@,
    {
        self.generic_value.addr()
    }
}

/// The target-data descriptor of an engine. The engine's disposal frees it,
/// so it has no release of its own.
#[derive(Debug, Clone, Copy, PartialEq, Eq, Structural)]
pub struct TargetData {
    target_data: NativeHandle,
}

impl View for TargetData {
    type V = usize;

    closed spec fn view(&self) -> usize {
        self.target_data@
    }
}

impl TargetData {
    pub fn new(handle: NativeHandle) -> (r: TargetData)
        ensures
            r@ == handle@,
    {
        TargetData { target_data: handle }
    }

    pub fn as_raw(&self) -> (r: usize)
        ensures
            r == self@,
    {
        self.target_data.addr()
    }
}

/// A floating-point type of the backend, by its native handle.
#[derive(Debug, Clone, Copy, PartialEq, Eq, Structural)]
pub struct FloatType {
    float_type: NativeHandle,
}

impl View for FloatType {
    type V = usize;

    closed spec fn view(&self) -> usize {
        self.float_type@
    }
}

impl FloatType {
    pub fn new(float_type: NativeHandle) -> (r: FloatType)
        ensures
            r@ == float_type@,
    {
        FloatType { float_type }
    }

    pub fn as_type_ref(&self) -> (r: usize)
        ensures
            r == self@,
            r != 0,
    {
        self.float_type.addr()
    }
}

} // verus!
