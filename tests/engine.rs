use inkwell::{
    ExecutionEngine, FloatType, FunctionLookupError, FunctionValue, GenericValue, Module, NativeHandle,
    RemoveModuleError, SharedEngine, TargetData,
};

fn engine(addr: usize, jit_mode: bool) -> (ExecutionEngine, SharedEngine) {
    let handle = NativeHandle::new(addr);
    let td = TargetData::new(NativeHandle::new(addr + 8));
    (ExecutionEngine::new(handle, jit_mode, td), SharedEngine::new(handle))
}

#[test]
fn lookup_error_messages() {
    assert_eq!(
        FunctionLookupError::JITNotEnabled.as_str(),
        "ExecutionEngine does not have JIT functionality enabled"
    );
    assert_eq!(FunctionLookupError::FunctionNotFound.as_str(), "Function not found in ExecutionEngine");
}

#[test]
fn remove_error_messages() {
    assert_eq!(RemoveModuleError::ModuleNotOwned.as_str(), "Module is not owned by an Execution Engine");
    assert_eq!(
        RemoveModuleError::IncorrectModuleOwner.as_str(),
        "Module is not owned by this Execution Engine"
    );
    let e = RemoveModuleError::LLVMError("cannot remove".to_string());
    assert_eq!(e.as_str(), "cannot remove");
}

#[test]
fn native_handle_identity() {
    assert!(NativeHandle::from_raw(0).is_none());
    let a = NativeHandle::from_raw(0x40).unwrap();
    assert_eq!(a.addr(), 0x40);
    assert!(a.same_as(&NativeHandle::new(0x40)));
    assert!(!a.same_as(&NativeHandle::new(0x48)));
}

#[test]
fn disposal_only_on_last_release() {
    let (ee, mut shared) = engine(0x1000, true);
    assert_eq!(shared.owners(), 1);
    let c1 = ee.share(&mut shared);
    let c2 = c1.share(&mut shared);
    assert_eq!(shared.owners(), 3);
    assert!(!c2.teardown(&mut shared));
    assert!(!ee.teardown(&mut shared));
    assert!(!shared.is_disposed());
    assert!(c1.teardown(&mut shared));
    assert!(shared.is_disposed());
    assert_eq!(shared.owners(), 0);
}

#[test]
fn single_owner_is_disposed_on_its_drop() {
    let (ee, mut shared) = engine(0x1000, false);
    assert!(ee.teardown(&mut shared));
    assert!(shared.is_disposed());
}

#[test]
fn symbol_keeps_engine_alive() {
    let (ee, mut shared) = engine(0x1000, true);
    let f = ee.get_function_value(0, 0x2000);
    let sym = ee.get_function(&mut shared, f, 0x7000).unwrap();
    assert_eq!(shared.owners(), 2);
    assert!(!ee.teardown(&mut shared));
    assert!(!shared.is_disposed());
    assert_eq!(shared.owners(), 1);
    let dispose = sym.release(&mut shared);
    assert_eq!((dispose, shared.owners(), shared.is_disposed()), (true, 0, true));
}

#[test]
fn found_function_gives_symbol() {
    let (ee, mut shared) = engine(0x1000, true);
    let f = ee.get_function_value(0, 0x2000);
    assert_eq!(f.unwrap().as_value_ref(), 0x2000);
    let sym = ee.get_function(&mut shared, f, 0x7000).unwrap();
    assert_eq!(sym.address(), 0x7000);
    assert!(sym.engine().same_as(&ee.as_raw()));
}

#[test]
fn jit_gating_refuses_existing_function() {
    let (ee, mut shared) = engine(0x1000, false);
    assert_eq!(ee.check_jit(), Err(FunctionLookupError::JITNotEnabled));
    assert_eq!(ee.get_function_value(0, 0x2000), Err(FunctionLookupError::JITNotEnabled));
    let found = Ok(FunctionValue::new(0x2000).unwrap());
    assert_eq!(ee.get_function(&mut shared, found, 0x7000), Err(FunctionLookupError::JITNotEnabled));
    assert_eq!(shared.owners(), 1);
}

#[test]
fn lookup_miss_is_function_not_found() {
    let (ee, mut shared) = engine(0x1000, true);
    assert_eq!(ee.check_jit(), Ok(()));
    let missing = ee.get_function_value(1, 0);
    assert_eq!(missing, Err(FunctionLookupError::FunctionNotFound));
    assert_eq!(ee.get_function(&mut shared, missing, 0x7000), Err(FunctionLookupError::FunctionNotFound));
    assert_eq!(ee.get_function_value(0, 0), Err(FunctionLookupError::FunctionNotFound));
    let found = ee.get_function_value(0, 0x2000);
    assert_eq!(ee.get_function(&mut shared, found, 0), Err(FunctionLookupError::FunctionNotFound));
    assert_eq!(shared.owners(), 1);
}

#[test]
fn remove_unadopted_module_is_not_owned() {
    let (ee, _shared) = engine(0x1000, true);
    let mut m = Module::new(NativeHandle::new(0x5000));
    assert_eq!(ee.check_removal(&m), Err(RemoveModuleError::ModuleNotOwned));
    let r = ee.remove_module(&mut m, Ok(NativeHandle::new(0x6000)));
    assert_eq!(r, Err(RemoveModuleError::ModuleNotOwned));
    assert_eq!(m.as_mut_ptr().addr(), 0x5000);
    assert!(m.owner().is_none());
}

#[test]
fn second_engine_cannot_adopt_or_remove() {
    let (a, _sa) = engine(0x1000, true);
    let (b, _sb) = engine(0x3000, true);
    let mut m = Module::new(NativeHandle::new(0x5000));
    assert_eq!(a.add_module(&mut m), Ok(()));
    assert_eq!(b.add_module(&mut m), Err(()));
    assert!(m.owner().unwrap().same_as(&a.as_raw()));
    let r = b.remove_module(&mut m, Ok(NativeHandle::new(0x6000)));
    assert_eq!(r, Err(RemoveModuleError::IncorrectModuleOwner));
    assert!(m.owner().unwrap().same_as(&a.as_raw()));
    assert_eq!(m.as_mut_ptr().addr(), 0x5000);
}

#[test]
fn same_engine_cannot_adopt_twice() {
    let (a, _sa) = engine(0x1000, true);
    let mut m = Module::new(NativeHandle::new(0x5000));
    assert_eq!(a.add_module(&mut m), Ok(()));
    assert_eq!(a.add_module(&mut m), Err(()));
    assert!(m.owner().unwrap().same_as(&a.as_raw()));
}

#[test]
fn clone_of_owner_removes_and_module_can_be_adopted_again() {
    let (a, mut sa) = engine(0x1000, true);
    let (b, _sb) = engine(0x3000, true);
    let a2 = a.share(&mut sa);
    let mut m = Module::new(NativeHandle::new(0x5000));
    assert_eq!(a.add_module(&mut m), Ok(()));
    assert_eq!(a2.check_removal(&m), Ok(()));
    assert_eq!(a2.remove_module(&mut m, Ok(NativeHandle::new(0x6000))), Ok(()));
    assert!(m.owner().is_none());
    assert_eq!(m.as_mut_ptr().addr(), 0x6000);
    assert_eq!(b.add_module(&mut m), Ok(()));
    assert!(m.owner().unwrap().same_as(&b.as_raw()));
}

#[test]
fn backend_refusal_leaves_module_owned() {
    let (a, _sa) = engine(0x1000, true);
    let mut m = Module::new(NativeHandle::new(0x5000));
    assert_eq!(a.add_module(&mut m), Ok(()));
    let r = a.remove_module(&mut m, Err("module in use".to_string()));
    assert_eq!(r, Err(RemoveModuleError::LLVMError("module in use".to_string())));
    assert!(m.owner().unwrap().same_as(&a.as_raw()));
    assert_eq!(m.as_mut_ptr().addr(), 0x5000);
}

#[test]
fn engine_keeps_mode_and_target_data() {
    let (ee, mut shared) = engine(0x1000, false);
    assert!(!ee.jit_mode());
    assert_eq!(ee.get_target_data().as_raw(), 0x1008);
    let c = ee.share(&mut shared);
    assert!(!c.jit_mode());
    assert_eq!(c.get_target_data().as_raw(), 0x1008);
}

#[test]
fn run_arguments_keep_their_order() {
    let args = vec![
        GenericValue::new(NativeHandle::new(0x30)),
        GenericValue::new(NativeHandle::new(0x10)),
        GenericValue::new(NativeHandle::new(0x20)),
    ];
    assert_eq!(ExecutionEngine::generic_value_refs(&args), vec![0x30, 0x10, 0x20]);
    assert!(ExecutionEngine::generic_value_refs(&Vec::new()).is_empty());
}

#[test]
fn null_handles_are_absent() {
    assert!(FunctionValue::new(0).is_none());
    assert_eq!(FloatType::new(NativeHandle::new(0x90)).as_type_ref(), 0x90);
}

#[test]
fn c_string_gets_closing_nul() {
    assert_eq!(ExecutionEngine::c_string_bytes("ab"), Some(vec![b'a', b'b', 0]));
    assert_eq!(ExecutionEngine::c_string_bytes(""), Some(vec![0]));
    assert_eq!(ExecutionEngine::c_string_bytes("a\0b"), None);
}

#[test]
fn main_argv_keeps_order_and_refuses_nul() {
    assert_eq!(ExecutionEngine::main_argv(&["prog", "-v"]), Some(vec![b"prog\0".to_vec(), b"-v\0".to_vec()]));
    assert_eq!(ExecutionEngine::main_argv(&[]), Some(vec![]));
    assert_eq!(ExecutionEngine::main_argv(&["ok", "bad\0"]), None);
}
