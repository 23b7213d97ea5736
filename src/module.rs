use vstd::prelude::*;
use crate::handle::NativeHandle;

verus! {

/// What the engine layer knows of a module: its native representation, and
/// which engine, if any, owns it.
pub struct ModuleState {
    pub native: NativeHandle,
    pub owner: Option<NativeHandle>,
}

/// A module, with its ownership slot. At most one engine owns it at a time.
pub struct Module {
    module: NativeHandle,
    owned_by_ee: Option<NativeHandle>,
}

impl View for Module {
    type V = ModuleState;

    closed spec fn view(&self) -> ModuleState {
        ModuleState { native: self.module, owner: self.owned_by_ee }
    }
}

impl Module {
    /// A module that no engine owns yet.
    pub fn new(module: NativeHandle) -> (r: Module)
        ensures
            r@ == (ModuleState { native: module, owner: None }),
    {
        Module { module, owned_by_ee: None }
    }

    /// The module's current native representation.
    pub fn as_mut_ptr(&self) -> (r: NativeHandle)
        ensures
            r == self@.native,
    {
        self.module
    }

    /// The engine that owns the module, by its native handle.
    pub fn owner(&self) -> (r: Option<NativeHandle>)
        ensures
            r == self@.owner,
    {
        self.owned_by_ee
    }

    pub(crate) fn set_owner(&mut self, owner: Option<NativeHandle>)
        ensures
            final(self)@ == (ModuleState { native: old(self)@.native, owner }),
    {
        self.owned_by_ee = owner;
    }

    pub(crate) fn detach(&mut self, module: NativeHandle)
        ensures
            final(self)@ == (ModuleState { native: module, owner: None }),
    {
        self.module = module;
        self.owned_by_ee = None;
    }
}

} // verus!
