use wasm_host::elements::{
    GlobalType, MemoryType, TableElementType, TableType, ValueType, LINEAR_MEMORY_MAX_PAGES,
};
use wasm_host::error::Error;
use wasm_host::func::AnyFunc;
use wasm_host::host::HostModuleBuilder;
use wasm_host::store::{
    ExternVal, FuncId, GlobalId, MemoryId, ModuleId, Store, TableId, TypeId,
};
use wasm_host::value::RuntimeValue;

struct Counter {
    calls: u32,
}

#[test]
fn add_one_returns_forty_two() {
    let mut builder = HostModuleBuilder::<Counter>::new();
    builder.with_func1("add_one", |state: &mut Counter, x: i32| -> Result<Option<i32>, Error> {
        state.calls += 1;
        Ok(Some(x + 1))
    });
    let mut store = Store::new();
    let module_id = builder.build().allocate(&mut store).unwrap();
    assert_eq!(module_id, ModuleId(0));
    let export = store.module(module_id).unwrap().export_by_name("add_one");
    assert_eq!(export, Some(ExternVal::Func(FuncId(0))));
    let func = store.func(FuncId(0)).unwrap();
    assert_eq!(func.type_id, TypeId(0));
    let func_type = store.func_type(func.type_id).unwrap();
    assert_eq!(func_type.params, vec![ValueType::I32]);
    assert_eq!(func_type.return_type, Some(ValueType::I32));
    let mut state = Counter { calls: 0 };
    let result = func.host_func.call_as_any(&mut state, &[RuntimeValue::I32(41)]);
    assert_eq!(result, Ok(Some(RuntimeValue::I32(42))));
    assert_eq!(state.calls, 1);
}

#[test]
fn counter_global_is_exported() {
    let mut builder = HostModuleBuilder::<Counter>::new();
    builder.with_global("counter", GlobalType::new(ValueType::I32, true), RuntimeValue::I32(0));
    let mut store = Store::new();
    let module_id = builder.build().allocate(&mut store).unwrap();
    let export = store.module(module_id).unwrap().export_by_name("counter");
    assert_eq!(export, Some(ExternVal::Global(GlobalId(0))));
    let global = store.global(GlobalId(0)).unwrap();
    assert_eq!(global.value, RuntimeValue::I32(0));
    assert_eq!(global.global_type, GlobalType::new(ValueType::I32, true));
    assert_eq!(store.module(module_id).unwrap().export_by_name("other"), None);
}

#[test]
fn memory_with_minimum_above_maximum_fails_without_rollback() {
    let mut builder = HostModuleBuilder::<Counter>::new();
    builder.with_global("g", GlobalType::new(ValueType::I64, false), RuntimeValue::I64(7));
    builder.with_func0("tick", |state: &mut Counter| -> Result<Option<()>, Error> {
        state.calls += 1;
        Ok(None)
    });
    builder.with_memory("mem", MemoryType::new(2, Some(1)));
    builder.with_global("late", GlobalType::new(ValueType::I32, false), RuntimeValue::I32(1));
    let mut store = Store::new();
    let result = builder.build().allocate(&mut store);
    assert_eq!(result, Err(Error::InvalidLimits { initial: 2, maximum: 1 }));
    assert_eq!(store.global(GlobalId(0)).unwrap().value, RuntimeValue::I64(7));
    assert!(store.func(FuncId(0)).is_some());
    assert!(store.func_type(TypeId(0)).is_some());
    assert!(store.memory(MemoryId(0)).is_none());
    assert!(store.global(GlobalId(1)).is_none());
    assert!(store.module(ModuleId(0)).is_none());
}

#[test]
fn table_with_minimum_above_maximum_fails_without_rollback() {
    let mut builder = HostModuleBuilder::<Counter>::new();
    builder.with_memory("mem", MemoryType::new(1, Some(2)));
    builder.with_table("tab", TableType::new(10, Some(9)));
    let mut store = Store::new();
    let result = builder.build().allocate(&mut store);
    assert_eq!(result, Err(Error::InvalidLimits { initial: 10, maximum: 9 }));
    assert_eq!(store.memory(MemoryId(0)), Some(MemoryType::new(1, Some(2))));
    assert!(store.table(TableId(0)).is_none());
    assert!(store.module(ModuleId(0)).is_none());
}

#[test]
fn memory_beyond_the_page_limit_fails() {
    let mut builder = HostModuleBuilder::<Counter>::new();
    builder.with_memory("mem", MemoryType::new(1, Some(LINEAR_MEMORY_MAX_PAGES + 1)));
    let mut store = Store::new();
    let result = builder.build().allocate(&mut store);
    assert_eq!(result, Err(Error::MemoryTooLarge { pages: 65537 }));

    let mut builder = HostModuleBuilder::<Counter>::new();
    builder.with_memory("mem", MemoryType::new(70000, None));
    let result = builder.build().allocate(&mut store);
    assert_eq!(result, Err(Error::MemoryTooLarge { pages: 70000 }));
    assert!(store.memory(MemoryId(0)).is_none());
}

#[test]
fn memory_at_the_page_limit_is_allocated() {
    let mut builder = HostModuleBuilder::<Counter>::new();
    builder.with_memory("full", MemoryType::new(65536, Some(65536)));
    builder.with_memory("open", MemoryType::new(0, None));
    builder.with_table("tab", TableType::new(3, Some(3)));
    let mut store = Store::new();
    let module_id = builder.build().allocate(&mut store).unwrap();
    let module = store.module(module_id).unwrap();
    assert_eq!(module.export_by_name("full"), Some(ExternVal::Memory(MemoryId(0))));
    assert_eq!(module.export_by_name("open"), Some(ExternVal::Memory(MemoryId(1))));
    assert_eq!(module.export_by_name("tab"), Some(ExternVal::Table(TableId(0))));
    assert_eq!(store.memory(MemoryId(0)), Some(MemoryType::new(65536, Some(65536))));
    assert_eq!(store.memory(MemoryId(1)), Some(MemoryType::new(0, None)));
    let table = store.table(TableId(0)).unwrap();
    assert_eq!(table.elem_type, TableElementType::AnyFunc);
    assert_eq!(table.limits.initial, 3);
    assert_eq!(table.limits.maximum, Some(3));
}

#[test]
fn later_export_of_the_same_name_wins() {
    let mut builder = HostModuleBuilder::<Counter>::new();
    builder.with_global("x", GlobalType::new(ValueType::I32, false), RuntimeValue::I32(1));
    builder.with_global("y", GlobalType::new(ValueType::I32, false), RuntimeValue::I32(2));
    builder.with_global("x", GlobalType::new(ValueType::I64, true), RuntimeValue::I64(3));
    let mut store = Store::new();
    let module_id = builder.build().allocate(&mut store).unwrap();
    let module = store.module(module_id).unwrap();
    assert_eq!(module.export_by_name("x"), Some(ExternVal::Global(GlobalId(2))));
    assert_eq!(module.export_by_name("y"), Some(ExternVal::Global(GlobalId(1))));
    assert_eq!(store.global(GlobalId(2)).unwrap().value, RuntimeValue::I64(3));
    // the earlier item is still in the store; it is only no longer exported
    assert_eq!(store.global(GlobalId(0)).unwrap().value, RuntimeValue::I32(1));
}

#[test]
fn later_export_of_the_same_name_wins_across_kinds() {
    let mut builder = HostModuleBuilder::<Counter>::new();
    builder.with_memory("item", MemoryType::new(1, None));
    builder.with_table("item", TableType::new(1, None));
    let mut store = Store::new();
    let module_id = builder.build().allocate(&mut store).unwrap();
    let module = store.module(module_id).unwrap();
    assert_eq!(module.export_by_name("item"), Some(ExternVal::Table(TableId(0))));
    assert!(store.memory(MemoryId(0)).is_some());
}

#[test]
fn empty_module_registers_without_exports() {
    let builder = HostModuleBuilder::<Counter>::new();
    let mut store = Store::new();
    let module_id = builder.build().allocate(&mut store).unwrap();
    assert_eq!(module_id, ModuleId(0));
    assert_eq!(store.module(module_id).unwrap().export_by_name(""), None);
    assert!(store.module(ModuleId(1)).is_none());
}

#[test]
fn two_modules_share_one_store() {
    let mut store = Store::new();
    let mut first = HostModuleBuilder::<Counter>::new();
    first.with_global("a", GlobalType::new(ValueType::I32, false), RuntimeValue::I32(10));
    first.with_func1("id", |_state: &mut Counter, x: i64| -> Result<Option<i64>, Error> {
        Ok(Some(x))
    });
    let first_id = first.build().allocate(&mut store).unwrap();
    let mut second = HostModuleBuilder::<Counter>::new();
    second.with_func2(
        "sum",
        |_state: &mut Counter, x: i32, y: i32| -> Result<Option<i32>, Error> {
            Ok(Some(x.wrapping_add(y)))
        },
    );
    second.with_global("a", GlobalType::new(ValueType::I32, false), RuntimeValue::I32(20));
    let second_id = second.build().allocate(&mut store).unwrap();
    assert_eq!(first_id, ModuleId(0));
    assert_eq!(second_id, ModuleId(1));
    let first_module = store.module(first_id).unwrap();
    let second_module = store.module(second_id).unwrap();
    assert_eq!(first_module.export_by_name("a"), Some(ExternVal::Global(GlobalId(0))));
    assert_eq!(first_module.export_by_name("id"), Some(ExternVal::Func(FuncId(0))));
    assert_eq!(first_module.export_by_name("sum"), None);
    assert_eq!(second_module.export_by_name("a"), Some(ExternVal::Global(GlobalId(1))));
    assert_eq!(second_module.export_by_name("sum"), Some(ExternVal::Func(FuncId(1))));
    let sum = store.func(FuncId(1)).unwrap();
    assert_eq!(sum.type_id, TypeId(1));
    assert_eq!(
        store.func_type(TypeId(1)).unwrap().params,
        vec![ValueType::I32, ValueType::I32]
    );
    let mut state = Counter { calls: 0 };
    let result =
        sum.host_func.call_as_any(&mut state, &[RuntimeValue::I32(40), RuntimeValue::I32(2)]);
    assert_eq!(result, Ok(Some(RuntimeValue::I32(42))));
}

#[test]
fn global_value_is_not_held_against_its_type() {
    let mut builder = HostModuleBuilder::<Counter>::new();
    builder.with_global("odd", GlobalType::new(ValueType::I32, false), RuntimeValue::F64(0));
    let mut store = Store::new();
    let module_id = builder.build().allocate(&mut store).unwrap();
    assert_eq!(
        store.module(module_id).unwrap().export_by_name("odd"),
        Some(ExternVal::Global(GlobalId(0)))
    );
    let global = store.global(GlobalId(0)).unwrap();
    assert_eq!(global.global_type.content_type, ValueType::I32);
    assert!(!global.global_type.is_mutable);
    assert_eq!(global.value, RuntimeValue::F64(0));
}

#[test]
fn callable_is_shared_with_the_store() {
    let mut builder = HostModuleBuilder::<Counter>::new();
    builder.with_func0("calls", |state: &mut Counter| -> Result<Option<i64>, Error> {
        state.calls += 1;
        Ok(Some(state.calls as i64))
    });
    let mut store = Store::new();
    builder.build().allocate(&mut store).unwrap();
    let handle = std::sync::Arc::clone(&store.func(FuncId(0)).unwrap().host_func);
    // the handle stays usable while the store goes on allocating
    store.alloc_global(GlobalType::new(ValueType::I32, false), RuntimeValue::I32(0));
    let mut state = Counter { calls: 0 };
    assert_eq!(handle.call_as_any(&mut state, &[]), Ok(Some(RuntimeValue::I64(1))));
    let again = store.func(FuncId(0)).unwrap();
    assert_eq!(again.host_func.call_as_any(&mut state, &[]), Ok(Some(RuntimeValue::I64(2))));
    assert_eq!(state.calls, 2);
}
