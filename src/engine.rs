use vstd::prelude::*;
use vstd::string::StringSliceAdditionalSpecFns;
use crate::error::{FunctionLookupError, RemoveModuleError};
use crate::handle::{NativeHandle, RefOp, SharedEngine, ref_step};
use crate::module::{Module, ModuleState};
use crate::values::{FunctionValue, GenericValue, TargetData};

verus! {

/// The error a lookup result carries, if any.
pub open spec fn lookup_error<T>(r: Result<T, FunctionLookupError>) -> Option<FunctionLookupError> {
    match r {
        Ok(_) => None,
        Err(e) => Some(e),
    }
}

/// How a descriptor lookup ends, given the backend's status code and the
/// descriptor it wrote (`None` is success).
pub open spec fn function_value_outcome(jit_mode: bool, code: i32, raw: usize) -> Option<FunctionLookupError> {
    if !jit_mode {
        Some(FunctionLookupError::JITNotEnabled)
    } else if code == 0 && raw != 0 {
        None
    } else {
        Some(FunctionLookupError::FunctionNotFound)
    }
}

/// How an address lookup ends, given how the descriptor lookup for the same
/// name ended and the address the backend resolved (`None` is success).
pub open spec fn function_outcome(
    jit_mode: bool,
    descriptor: Option<FunctionLookupError>,
    address: u64,
) -> Option<FunctionLookupError> {
    if !jit_mode {
        Some(FunctionLookupError::JITNotEnabled)
    } else if descriptor is Some {
        descriptor
    } else if address == 0 {
        Some(FunctionLookupError::FunctionNotFound)
    } else {
        None
    }
}

/// The bytes of a C string holding `bytes`: the bytes and a closing NUL;
/// `None` when they hold a NUL already, which a C string cannot.
pub open spec fn c_string_of(bytes: Seq<u8>) -> Option<Seq<u8>> {
    if bytes.contains(0u8) {
        None
    } else {
        Some(bytes.push(0u8))
    }
}

/// Adoption of a module by the engine `ee`: whether it succeeds, and the
/// module afterwards. An owned module is left as it is.
pub open spec fn adopt(m: ModuleState, ee: NativeHandle) -> (bool, ModuleState) {
    match m.owner {
        Some(_) => (false, m),
        None => (true, ModuleState { native: m.native, owner: Some(ee) }),
    }
}

/// Why the engine `ee` may not remove the module, if it may not. Owners are
/// compared by the identity of their native engine.
pub open spec fn removal_error(m: ModuleState, ee: NativeHandle) -> Option<RemoveModuleError> {
    match m.owner {
        None => Some(RemoveModuleError::ModuleNotOwned),
        Some(o) => if o@ != ee@ {
            Some(RemoveModuleError::IncorrectModuleOwner)
        } else {
            None
        },
    }
}

/// One operation on a module's ownership: adoption by an engine, or removal
/// by an engine with what the backend gave back (`None`: it refused).
pub enum ModuleOp {
    Add(NativeHandle),
    Remove(NativeHandle, Option<NativeHandle>),
}

/// One operation: the module afterwards, and whether the operation succeeded.
pub open spec fn module_step(m: ModuleState, op: ModuleOp) -> (ModuleState, bool) {
    match op {
        ModuleOp::Add(ee) => {
            let (ok, m2) = adopt(m, ee);
            (m2, ok)
        },
        ModuleOp::Remove(ee, detached) => if removal_error(m, ee) is Some {
            (m, false)
        } else {
            match detached {
                Some(h) => (ModuleState { native: h, owner: None }, true),
                None => (m, false),
            }
        },
    }
}

/// The module after a sequence of operations.
pub open spec fn run_module(m: ModuleState, ops: Seq<ModuleOp>) -> ModuleState
    decreases ops.len(),
{
    if ops.len() == 0 {
        m
    } else {
        run_module(module_step(m, ops[0]).0, ops.drop_first())
    }
}

/// How many adoptions of a sequence succeed.
pub open spec fn successful_adoptions(m: ModuleState, ops: Seq<ModuleOp>) -> nat
    decreases ops.len(),
{
    if ops.len() == 0 {
        0
    } else {
        let (m1, ok) = module_step(m, ops[0]);
        let here: nat = if ok && ops[0] is Add { 1 } else { 0 };
        here + successful_adoptions(m1, ops.drop_first())
    }
}

/// No removal of the sequence succeeds.
pub open spec fn no_removal_succeeds(m: ModuleState, ops: Seq<ModuleOp>) -> bool
    decreases ops.len(),
{
    ops.len() == 0 || ({
        let (m1, ok) = module_step(m, ops[0]);
        &&& !(ok && ops[0] is Remove)
        &&& no_removal_succeeds(m1, ops.drop_first())
    })
}

/// Without a successful removal in between, a module is adopted at most once
/// (never, if an engine owns it already), and once owned its owner stays.
pub proof fn lemma_single_ownership(m: ModuleState, ops: Seq<ModuleOp>)
    requires
        no_removal_succeeds(m, ops),
    ensures
        successful_adoptions(m, ops) <= 1,
        m.owner is Some ==> successful_adoptions(m, ops) == 0,
        m.owner is Some ==> run_module(m, ops) == m,
        run_module(m, ops).owner is None ==> successful_adoptions(m, ops) == 0,
    decreases ops.len(),
{
    if ops.len() > 0 {
        let (m1, ok) = module_step(m, ops[0]);
        lemma_single_ownership(m1, ops.drop_first());
    }
}

/// A second adoption, by any engine, of a module that the first adoption
/// gave an owner fails and leaves that owner.
pub proof fn lemma_second_adoption_fails(m: ModuleState, a: NativeHandle, b: NativeHandle)
    ensures
        ({
            let (first, m1) = adopt(m, a);
            let (second, m2) = adopt(m1, b);
            &&& first ==> m1.owner == Some(a)
            &&& !second
            &&& m2 == m1
        }),
{
}

/// Only the owning engine, compared by its native handle and so through any
/// of its clones, may remove a module. Another engine is told that it is not
/// the owner; any engine is told that an unowned module has no owner.
pub proof fn lemma_removal_by_owner_only(m: ModuleState, ee: NativeHandle, clone: NativeHandle)
    requires
        clone@ == ee@,
    ensures
        removal_error(m, ee) is None <==> (m.owner matches Some(o) && o@ == ee@),
        m.owner is None ==> removal_error(m, ee) == Some(RemoveModuleError::ModuleNotOwned),
        (m.owner matches Some(o) && o@ != ee@) ==> removal_error(m, ee) == Some(
            RemoveModuleError::IncorrectModuleOwner,
        ),
        removal_error(m, clone) == removal_error(m, ee),
        removal_error(m, ee) is Some ==> module_step(m, ModuleOp::Remove(ee, None)).0 == m,
{
}

/// An engine built without JIT support refuses every lookup with
/// `JITNotEnabled`, whatever the backend would have answered.
pub proof fn lemma_jit_gating(code: i32, raw: usize, descriptor: Option<FunctionLookupError>, address: u64)
    ensures
        function_value_outcome(false, code, raw) == Some(FunctionLookupError::JITNotEnabled),
        function_outcome(false, descriptor, address) == Some(FunctionLookupError::JITNotEnabled),
{
}

/// On a JIT engine, a name that the backend's descriptor lookup does not find
/// is `FunctionNotFound` for the address lookup too, whatever address would
/// have been resolved; so is a name that resolves to address zero.
pub proof fn lemma_lookup_miss(code: i32, raw: usize, address: u64)
    ensures
        (code != 0 || raw == 0) ==> function_outcome(true, function_value_outcome(true, code, raw), address)
            == Some(FunctionLookupError::FunctionNotFound),
        function_outcome(true, None, 0) == Some(FunctionLookupError::FunctionNotFound),
{
}

/// A function resolved from an engine: its entry address, and the engine it
/// keeps alive. It does not keep the function's machine code alive.
#[derive(Debug, Clone, Copy, PartialEq, Eq, Structural)]
pub struct Symbol {
    _execution_engine: NativeHandle,
    inner: u64,
}

impl Symbol {
    pub closed spec fn spec_engine(&self) -> NativeHandle {
        self._execution_engine
    }

    pub closed spec fn spec_address(&self) -> u64 {
        self.inner
    }

    /// The engine whose handle this symbol holds.
    pub fn engine(&self) -> (r: NativeHandle)
        ensures
            r == self.spec_engine(),
    {
        self._execution_engine
    }

    /// The entry address; never zero.
    pub fn address(&self) -> (r: u64)
        ensures
            r == self.spec_address(),
    {
        self.inner
    }

    /// The symbol goes: its claim on the engine ends. `true` when the native
    /// engine must now be disposed.
    pub fn release(self, shared: &mut SharedEngine) -> (dispose: bool)
        requires
            !old(shared)@.disposed,
            old(shared).spec_handle()@ == self.spec_engine()@,
        ensures
            (final(shared)@, dispose) == ref_step(old(shared)@, RefOp::Release),
            final(shared).spec_handle() == old(shared).spec_handle(),
    {
        shared.release()
    }
}

/// An execution engine (JIT or interpreter): one owner of a shared native
/// engine, with the engine's target data and its mode, fixed at construction.
#[derive(Debug, Clone, Copy, PartialEq, Eq, Structural)]
pub struct ExecutionEngine {
    execution_engine: NativeHandle,
    target_data: TargetData,
    jit_mode: bool,
}

impl ExecutionEngine {
    pub closed spec fn spec_handle(&self) -> NativeHandle {
        self.execution_engine
    }

    pub closed spec fn spec_target_data(&self) -> TargetData {
        self.target_data
    }

    pub closed spec fn spec_jit_mode(&self) -> bool {
        self.jit_mode
    }

    /// An engine for a native engine handle, with the target data the
    /// backend reported for it.
    pub fn new(execution_engine: NativeHandle, jit_mode: bool, target_data: TargetData) -> (r: ExecutionEngine)
        ensures
            r.spec_handle() == execution_engine,
            r.spec_jit_mode() == jit_mode,
            r.spec_target_data() == target_data,
    {
        ExecutionEngine { execution_engine, target_data, jit_mode }
    }

    /// A further owner of the same native engine, in the same mode.
    pub fn share(&self, shared: &mut SharedEngine) -> (r: ExecutionEngine)
        requires
            !old(shared)@.disposed,
            old(shared)@.owners < usize::MAX,
            old(shared).spec_handle()@ == self.spec_handle()@,
        ensures
            r == *self,
            final(shared)@ == ref_step(old(shared)@, RefOp::Acquire).0,
            final(shared).spec_handle() == old(shared).spec_handle(),
    {
        shared.acquire();
        *self
    }

    /// This owner goes. Its target data is not released on its own: the
    /// disposal of the native engine frees it. `true` when the native engine
    /// must now be disposed, which is when this was its last owner.
    pub fn teardown(self, shared: &mut SharedEngine) -> (dispose: bool)
        requires
            !old(shared)@.disposed,
            old(shared).spec_handle()@ == self.spec_handle()@,
        ensures
            (final(shared)@, dispose) == ref_step(old(shared)@, RefOp::Release),
            dispose == (old(shared)@.owners == 1),
            final(shared).spec_handle() == old(shared).spec_handle(),
    {
        shared.release()
    }

    pub fn as_raw(&self) -> (r: NativeHandle)
        ensures
            r == self.spec_handle(),
    {
        self.execution_engine
    }

    pub fn jit_mode(&self) -> (r: bool)
        ensures
            r == self.spec_jit_mode(),
    {
        self.jit_mode
    }

    pub fn get_target_data(&self) -> (r: &TargetData)
        ensures
            *r == self.spec_target_data(),
    {
        &self.target_data
    }

    /// Records this engine as the module's owner. Fails, leaving the module
    /// as it was, when an engine already owns it. The native registration
    /// is made before this call, and stays when it fails.
    pub fn add_module(&self, module: &mut Module) -> (r: Result<(), ()>)
        ensures
            (r is Ok, final(module)@) == adopt(old(module)@, self.spec_handle()),
    {
        if module.owner().is_some() {
            return Err(());
        }
        module.set_owner(Some(self.execution_engine));
        Ok(())
    }

    /// Whether this engine may remove the module, decided before the backend
    /// is asked to.
    pub fn check_removal(&self, module: &Module) -> (r: Result<(), RemoveModuleError>)
        ensures
            match removal_error(module@, self.spec_handle()) {
                Some(e) => r == Err::<(), RemoveModuleError>(e),
                None => r is Ok,
            },
    {
        match module.owner() {
            None => Err(RemoveModuleError::ModuleNotOwned),
            Some(owner) => if !owner.same_as(&self.execution_engine) {
                Err(RemoveModuleError::IncorrectModuleOwner)
            } else {
                Ok(())
            },
        }
    }

    /// Removes the module from this engine. `detached` is what the backend
    /// gave back for the removal: the module's new native representation, or
    /// its diagnostic. Ownership is checked first; on any failure the module
    /// is left as it was.
    pub fn remove_module(&self, module: &mut Module, detached: Result<NativeHandle, String>) -> (r: Result<(), RemoveModuleError>)
        ensures
            match removal_error(old(module)@, self.spec_handle()) {
                Some(e) => r == Err::<(), RemoveModuleError>(e) && final(module)@ == old(module)@,
                None => match detached {
                    Ok(h) => r is Ok && final(module)@ == (ModuleState { native: h, owner: None }),
                    Err(msg) => r == Err::<(), RemoveModuleError>(RemoveModuleError::LLVMError(msg))
                        && final(module)@ == old(module)@,
                },
            },
    {
        match self.check_removal(module) {
            Err(e) => Err(e),
            Ok(()) => match detached {
                Ok(h) => {
                    module.detach(h);
                    Ok(())
                },
                Err(msg) => Err(RemoveModuleError::LLVMError(msg)),
            },
        }
    }

    /// Whether lookups may reach the backend at all: only in JIT mode.
    pub fn check_jit(&self) -> (r: Result<(), FunctionLookupError>)
        ensures
            r is Ok <==> self.spec_jit_mode(),
            r is Err ==> r == Err::<(), FunctionLookupError>(FunctionLookupError::JITNotEnabled),
    {
        if !self.jit_mode {
            Err(FunctionLookupError::JITNotEnabled)
        } else {
            Ok(())
        }
    }

    /// The function descriptor of a name, from the backend's status code
    /// (zero is success) and the descriptor it wrote.
    pub fn get_function_value(&self, code: i32, raw: usize) -> (r: Result<FunctionValue, FunctionLookupError>)
        ensures
            lookup_error(r) == function_value_outcome(self.spec_jit_mode(), code, raw),
            r matches Ok(f) ==> f@ == raw,
    {
        self.check_jit()?;
        if code == 0 {
            match FunctionValue::new(raw) {
                Some(f) => Ok(f),
                None => Err(FunctionLookupError::FunctionNotFound),
            }
        } else {
            Err(FunctionLookupError::FunctionNotFound)
        }
    }

    /// A symbol for a name, from how its descriptor lookup ended and the
    /// address the backend resolved afterwards. The symbol is a new owner of
    /// the engine.
    pub fn get_function(
        &self,
        shared: &mut SharedEngine,
        descriptor: Result<FunctionValue, FunctionLookupError>,
        address: u64,
    ) -> (r: Result<Symbol, FunctionLookupError>)
        requires
            !old(shared)@.disposed,
            old(shared)@.owners < usize::MAX,
            old(shared).spec_handle()@ == self.spec_handle()@,
        ensures
            lookup_error(r) == function_outcome(self.spec_jit_mode(), lookup_error(descriptor), address),
            r matches Ok(s) ==> s.spec_engine() == self.spec_handle() && s.spec_address() == address,
            final(shared).spec_handle() == old(shared).spec_handle(),
            final(shared)@ == if r is Ok {
                ref_step(old(shared)@, RefOp::Acquire).0
            } else {
                old(shared)@
            },
    {
        self.check_jit()?;
        if let Err(e) = descriptor {
            return Err(e);
        }
        if address == 0 {
            return Err(FunctionLookupError::FunctionNotFound);
        }
        shared.acquire();
        Ok(Symbol { _execution_engine: self.execution_engine, inner: address })
    }

    /// One argument of a run as `main`, as the bytes of a C string.
    pub fn c_string_bytes(arg: &str) -> (r: Option<Vec<u8>>)
        ensures
            r is None <==> c_string_of(arg.spec_bytes()) is None,
            r matches Some(v) ==> Some(v@) == c_string_of(arg.spec_bytes()),
    {
        let bytes = arg.as_bytes();
        let mut out: Vec<u8> = Vec::new();
        let mut i: usize = 0;
        while i < bytes.len()
            invariant
                bytes@ == arg.spec_bytes(),
                i <= bytes@.len(),
                out@ == bytes@.subrange(0, i as int),
                !out@.contains(0u8),
            decreases bytes@.len() - i,
        {
            if bytes[i] == 0 {
                assert(bytes@[i as int] == 0u8);
                return None;
            }
            out.push(bytes[i]);
            assert(out@ =~= bytes@.subrange(0, i + 1));
            i = i + 1;
        }
        assert(out@ =~= bytes@);
        out.push(0u8);
        Some(out)
    }

    /// The arguments of a run as `main`, each as the bytes of a C string,
    /// in order; `None` when one of them holds a NUL byte.
    pub fn main_argv(args: &[&str]) -> (r: Option<Vec<Vec<u8>>>)
        ensures
            r is None <==> exists|i: int| 0 <= i < args@.len() && c_string_of(args@[i].spec_bytes()) is None,
            r matches Some(v) ==> v@.len() == args@.len() && forall|i: int|
                0 <= i < args@.len() ==> Some(#[trigger] v@[i]@) == c_string_of(args@[i].spec_bytes()),
    {
        let mut out: Vec<Vec<u8>> = Vec::new();
        let mut i: usize = 0;
        while i < args.len()
            invariant
                i <= args@.len(),
                out@.len() == i,
                forall|j: int| 0 <= j < i ==> Some(#[trigger] out@[j]@) == c_string_of(args@[j].spec_bytes()),
                forall|j: int| 0 <= j < i ==> c_string_of(#[trigger] args@[j].spec_bytes()) is Some,
            decreases args@.len() - i,
        {
            match Self::c_string_bytes(args[i]) {
                Some(v) => out.push(v),
                None => return None,
            }
            i = i + 1;
        }
        Some(out)
    }

    /// The native handles of the arguments of a run, in order.
    pub fn generic_value_refs(args: &Vec<GenericValue>) -> (r: Vec<usize>)
        ensures
            r@.len() == args@.len(),
            forall|i: int| 0 <= i < args@.len() ==> r@[i] == args@[i]@,
    {
        let mut r: Vec<usize> = Vec::new();
        let mut i: usize = 0;
        while i < args.len()
            invariant
                i <= args@.len(),
                r@.len() == i,
                forall|j: int| 0 <= j < i ==> r@[j] == args@[j]@,
            decreases args@.len() - i,
        {
            r.push(args[i].as_raw());
            i = i + 1;
        }
        r
    }
}

} // verus!
