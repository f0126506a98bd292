use wasmi_core::linker::{InstantiationError, LinkError, Linker, Trap};
use wasmi_core::module::{Export, ExportDesc, GlobalDecl, Import, ImportDesc, Module};
use wasmi_core::registry::{InstanceRegistry, LookupError};
use wasmi_core::store::{Engine, Extern, FuncAddr, GlobalAddr, MemoryAddr, Store, TableAddr};
use wasmi_core::types::{FuncType, FuncTypeIdx, GlobalType, Limits, RuntimeValue, TypeTable, ValueType};

fn empty_module() -> Module {
    Module {
        types: TypeTable::new(),
        imports: Vec::new(),
        funcs: Vec::new(),
        memories: Vec::new(),
        tables: Vec::new(),
        globals: Vec::new(),
        exports: Vec::new(),
        start: None,
    }
}

fn unit_func_type() -> FuncType {
    FuncType::new(vec![], vec![])
}

#[test]
fn zero_import_module_instantiates_against_any_registry() {
    let engine = Engine::new();
    let mut store = Store::new(&engine);
    let mut linker = Linker::new();

    // An arbitrary registry: its contents must not matter.
    let f = store.alloc_func(unit_func_type(), 0);
    linker
        .define("env".to_string(), "f".to_string(), Extern::Func(f))
        .unwrap();

    let module = empty_module();
    assert!(module.validate());
    let pre = linker.instantiate(&mut store, &module).unwrap();
    let instance = pre.ensure_no_start_fn(&mut store).unwrap();
    assert!(store.resolve_instance(instance).is_some());

    // An empty registry works just as well.
    let empty_linker = Linker::new();
    let pre = empty_linker.instantiate(&mut store, &module).unwrap();
    pre.ensure_no_start_fn(&mut store).unwrap();
}

#[test]
fn missing_import_is_reported_with_its_exact_name() {
    let engine = Engine::new();
    let mut store = Store::new(&engine);
    let linker = Linker::new();

    let mut module = empty_module();
    let idx = module.types.push(unit_func_type());
    module.imports.push(Import {
        namespace: "host".to_string(),
        name: "missing".to_string(),
        desc: ImportDesc::Func(idx),
    });
    assert!(module.validate());

    let err = linker.instantiate(&mut store, &module).unwrap_err();
    assert_eq!(
        err,
        LinkError::UnresolvedImport {
            namespace: "host".to_string(),
            name: "missing".to_string(),
        }
    );
    // Nothing was allocated for the failed instantiation.
    assert_eq!(store.funcs.len(), 0);
}

#[test]
fn incompatible_import_is_a_type_mismatch() {
    let engine = Engine::new();
    let mut store = Store::new(&engine);
    let mut linker = Linker::new();

    // Registered as a global, imported as a function.
    let g = store.alloc_global(
        GlobalType { ty: ValueType::I32, mutable: false },
        RuntimeValue::I32(1),
    );
    linker
        .define("env".to_string(), "item".to_string(), Extern::Global(g))
        .unwrap();

    let mut module = empty_module();
    let idx = module.types.push(unit_func_type());
    module.imports.push(Import {
        namespace: "env".to_string(),
        name: "item".to_string(),
        desc: ImportDesc::Func(idx),
    });
    assert!(module.validate());

    let err = linker.instantiate(&mut store, &module).unwrap_err();
    assert_eq!(
        err,
        LinkError::ImportTypeMismatch {
            namespace: "env".to_string(),
            name: "item".to_string(),
        }
    );
}

#[test]
fn function_import_with_wrong_signature_is_a_type_mismatch() {
    let engine = Engine::new();
    let mut store = Store::new(&engine);
    let mut linker = Linker::new();

    let f = store.alloc_func(FuncType::new(vec![ValueType::I32], vec![]), 0);
    linker
        .define("env".to_string(), "f".to_string(), Extern::Func(f))
        .unwrap();

    let mut module = empty_module();
    let idx = module.types.push(FuncType::new(vec![ValueType::I64], vec![]));
    module.imports.push(Import {
        namespace: "env".to_string(),
        name: "f".to_string(),
        desc: ImportDesc::Func(idx),
    });
    assert!(module.validate());

    let err = linker.instantiate(&mut store, &module).unwrap_err();
    assert!(matches!(err, LinkError::ImportTypeMismatch { .. }));
}

#[test]
fn duplicate_definitions_are_rejected() {
    let engine = Engine::new();
    let mut store = Store::new(&engine);
    let mut linker = Linker::new();
    let f = store.alloc_func(unit_func_type(), 0);
    let g = store.alloc_func(unit_func_type(), 1);

    linker
        .define("env".to_string(), "f".to_string(), Extern::Func(f))
        .unwrap();
    let err = linker
        .define("env".to_string(), "f".to_string(), Extern::Func(g))
        .unwrap_err();
    assert_eq!(
        err,
        LinkError::DuplicateDefinition {
            namespace: "env".to_string(),
            name: "f".to_string(),
        }
    );

    // A second, distinct re-registration attempt fails the same way.
    linker
        .define("env".to_string(), "g".to_string(), Extern::Func(g))
        .unwrap();
    let err = linker
        .define("env".to_string(), "g".to_string(), Extern::Func(f))
        .unwrap_err();
    assert_eq!(
        err,
        LinkError::DuplicateDefinition {
            namespace: "env".to_string(),
            name: "g".to_string(),
        }
    );

    // The first definition still answers lookups.
    assert_eq!(
        linker.lookup(&"env".to_string(), &"f".to_string()),
        Some(Extern::Func(f))
    );
}

#[test]
fn instantiation_allocates_declarations_and_resolves_exports() {
    let engine = Engine::new();
    let mut store = Store::new(&engine);
    let mut linker = Linker::new();

    let host_func = store.alloc_func(FuncType::new(vec![ValueType::I32], vec![ValueType::I32]), 7);
    let host_memory = store.alloc_memory(Limits { min: 2, max: Some(8) });
    let host_table = store.alloc_table(Limits { min: 1, max: None });
    let host_global = store.alloc_global(
        GlobalType { ty: ValueType::I64, mutable: true },
        RuntimeValue::I64(-5),
    );
    linker
        .define("env".to_string(), "f".to_string(), Extern::Func(host_func))
        .unwrap();
    linker
        .define("env".to_string(), "mem".to_string(), Extern::Memory(host_memory))
        .unwrap();
    linker
        .define("env".to_string(), "tab".to_string(), Extern::Table(host_table))
        .unwrap();
    linker
        .define("env".to_string(), "glob".to_string(), Extern::Global(host_global))
        .unwrap();

    let mut module = empty_module();
    let idx = module
        .types
        .push(FuncType::new(vec![ValueType::I32], vec![ValueType::I32]));
    module.imports.push(Import {
        namespace: "env".to_string(),
        name: "f".to_string(),
        desc: ImportDesc::Func(idx),
    });
    module.imports.push(Import {
        namespace: "env".to_string(),
        name: "mem".to_string(),
        desc: ImportDesc::Memory(Limits { min: 1, max: Some(16) }),
    });
    module.imports.push(Import {
        namespace: "env".to_string(),
        name: "tab".to_string(),
        desc: ImportDesc::Table(Limits { min: 1, max: None }),
    });
    module.imports.push(Import {
        namespace: "env".to_string(),
        name: "glob".to_string(),
        desc: ImportDesc::Global(GlobalType { ty: ValueType::I64, mutable: true }),
    });
    module.funcs.push(idx);
    module.memories.push(Limits { min: 3, max: None });
    module.tables.push(Limits { min: 2, max: Some(4) });
    module.globals.push(GlobalDecl {
        ty: GlobalType { ty: ValueType::F32, mutable: false },
        init: RuntimeValue::F32(0x3f80_0000),
    });
    module.exports.push(Export {
        name: "imported_f".to_string(),
        desc: ExportDesc::Func(0),
    });
    module.exports.push(Export {
        name: "own_f".to_string(),
        desc: ExportDesc::Func(1),
    });
    module.exports.push(Export {
        name: "own_mem".to_string(),
        desc: ExportDesc::Memory(1),
    });
    assert!(module.validate());

    let pre = linker.instantiate(&mut store, &module).unwrap();

    // Index spaces: imported items first, own declarations after them.
    assert_eq!(pre.funcs, vec![host_func, FuncAddr(1)]);
    assert_eq!(pre.memories, vec![host_memory, MemoryAddr(1)]);
    assert_eq!(pre.tables, vec![host_table, TableAddr(1)]);
    assert_eq!(pre.globals, vec![host_global, GlobalAddr(1)]);

    // Own declarations were allocated into the store.
    let own_func = store.resolve_func(FuncAddr(1)).unwrap();
    assert_eq!(own_func.ty.params, vec![ValueType::I32]);
    assert_eq!(own_func.ty.results, vec![ValueType::I32]);
    assert_eq!(own_func.code, 0);
    let own_memory = store.resolve_memory(MemoryAddr(1)).unwrap();
    assert_eq!(own_memory.limits, Limits { min: 3, max: None });
    assert_eq!(own_memory.size, 3);
    let own_table = store.resolve_table(TableAddr(1)).unwrap();
    assert_eq!(own_table.size, 2);
    let own_global = store.resolve_global(GlobalAddr(1)).unwrap();
    assert_eq!(own_global.value, RuntimeValue::F32(0x3f80_0000));

    let instance = pre.ensure_no_start_fn(&mut store).unwrap();
    let data = store.resolve_instance(instance).unwrap();
    assert_eq!(
        data.lookup_export(&"imported_f".to_string()),
        Some(Extern::Func(host_func))
    );
    assert_eq!(
        data.lookup_export(&"own_f".to_string()),
        Some(Extern::Func(FuncAddr(1)))
    );
    assert_eq!(
        data.lookup_export(&"own_mem".to_string()),
        Some(Extern::Memory(MemoryAddr(1)))
    );
    assert_eq!(data.lookup_export(&"absent".to_string()), None);
}

#[test]
fn insufficient_memory_limits_are_a_type_mismatch() {
    let engine = Engine::new();
    let mut store = Store::new(&engine);
    let mut linker = Linker::new();

    // Offers fewer pages than the import requires.
    let host_memory = store.alloc_memory(Limits { min: 1, max: Some(2) });
    linker
        .define("env".to_string(), "mem".to_string(), Extern::Memory(host_memory))
        .unwrap();

    let mut module = empty_module();
    module.imports.push(Import {
        namespace: "env".to_string(),
        name: "mem".to_string(),
        desc: ImportDesc::Memory(Limits { min: 4, max: None }),
    });
    assert!(module.validate());

    let err = linker.instantiate(&mut store, &module).unwrap_err();
    assert!(matches!(err, LinkError::ImportTypeMismatch { .. }));
}

#[test]
fn declared_start_fn_blocks_the_no_start_finalizer() {
    let engine = Engine::new();
    let mut store = Store::new(&engine);
    let linker = Linker::new();

    let mut module = empty_module();
    let idx = module.types.push(unit_func_type());
    module.funcs.push(idx);
    module.start = Some(0);
    assert!(module.validate());

    let pre = linker.instantiate(&mut store, &module).unwrap();
    assert_eq!(pre.start_fn(), Some(FuncAddr(0)));
    let err = pre.ensure_no_start_fn(&mut store).unwrap_err();
    assert_eq!(err, InstantiationError::FoundStartFn);
    assert_eq!(store.instances.len(), 0);
}

#[test]
fn trapping_start_fn_keeps_allocations_but_yields_no_instance() {
    let engine = Engine::new();
    let mut store = Store::new(&engine);
    let linker = Linker::new();

    let mut module = empty_module();
    let idx = module.types.push(unit_func_type());
    module.funcs.push(idx);
    module.memories.push(Limits { min: 1, max: None });
    module.start = Some(0);
    assert!(module.validate());

    let pre = linker.instantiate(&mut store, &module).unwrap();
    let start = pre.start_fn().unwrap();
    assert!(store.resolve_func(start).is_some());

    // The dispatch loop (outside this crate) ran the start function
    // and reports that it trapped.
    let trap = Trap { code: 3 };
    let err = pre.finish_start(&mut store, Err(trap)).unwrap_err();
    assert_eq!(err, InstantiationError::StartTrapped(trap));

    // The allocations made for the failing instance remain visible in
    // the store, but no instance was registered.
    assert_eq!(store.funcs.len(), 1);
    assert_eq!(store.memories.len(), 1);
    assert_eq!(store.instances.len(), 0);
}

#[test]
fn finished_start_fn_finalizes_the_instance() {
    let engine = Engine::new();
    let mut store = Store::new(&engine);
    let linker = Linker::new();

    let mut module = empty_module();
    let idx = module.types.push(unit_func_type());
    module.funcs.push(idx);
    module.start = Some(0);

    let pre = linker.instantiate(&mut store, &module).unwrap();
    let instance = pre.finish_start(&mut store, Ok(())).unwrap();
    assert!(store.resolve_instance(instance).is_some());
    assert_eq!(store.instances.len(), 1);
}

#[test]
fn registry_distinguishes_no_instances_from_unknown_name() {
    let engine = Engine::new();
    let mut store = Store::new(&engine);
    let linker = Linker::new();
    let module = empty_module();

    let mut registry = InstanceRegistry::new();
    assert_eq!(
        registry.instance_by_name_or_last(None),
        Err(LookupError::NoInstancesYet)
    );

    let pre = linker.instantiate(&mut store, &module).unwrap();
    let first = pre.ensure_no_start_fn(&mut store).unwrap();
    registry.record(Some("first".to_string()), first);
    assert_eq!(registry.instance_by_name_or_last(None), Ok(first));

    let pre = linker.instantiate(&mut store, &module).unwrap();
    let second = pre.ensure_no_start_fn(&mut store).unwrap();
    registry.record(None, second);
    assert_eq!(registry.instance_by_name_or_last(None), Ok(second));
    assert_eq!(registry.instance_by_name(&"first".to_string()), Ok(first));

    assert_eq!(
        registry.instance_by_name(&"second".to_string()),
        Err(LookupError::InstanceNotRegistered { name: "second".to_string() })
    );
    assert_eq!(
        registry.instance_by_name_or_last(Some(&"first".to_string())),
        Ok(first)
    );
}

#[test]
fn renaming_an_instance_shadows_the_older_binding() {
    let engine = Engine::new();
    let mut store = Store::new(&engine);
    let linker = Linker::new();
    let module = empty_module();
    let mut registry = InstanceRegistry::new();

    let pre = linker.instantiate(&mut store, &module).unwrap();
    let first = pre.ensure_no_start_fn(&mut store).unwrap();
    let pre = linker.instantiate(&mut store, &module).unwrap();
    let second = pre.ensure_no_start_fn(&mut store).unwrap();

    registry.record(Some("m".to_string()), first);
    registry.record(Some("m".to_string()), second);
    assert_eq!(registry.instance_by_name(&"m".to_string()), Ok(second));
}

#[test]
fn validate_rejects_ill_formed_modules() {
    // An own function whose type index is out of range.
    let mut module = empty_module();
    module.funcs.push(FuncTypeIdx(0));
    assert!(!module.validate());

    // A global initializer of the wrong value type.
    let mut module = empty_module();
    module.globals.push(GlobalDecl {
        ty: GlobalType { ty: ValueType::I32, mutable: false },
        init: RuntimeValue::I64(0),
    });
    assert!(!module.validate());

    // An export pointing outside the function index space.
    let mut module = empty_module();
    module.exports.push(Export {
        name: "f".to_string(),
        desc: ExportDesc::Func(0),
    });
    assert!(!module.validate());

    // A start function outside the function index space.
    let mut module = empty_module();
    module.start = Some(0);
    assert!(!module.validate());
}

#[test]
fn limits_compatibility_follows_the_import_rules() {
    let offered = Limits { min: 2, max: Some(4) };
    assert!(offered.satisfies(&Limits { min: 1, max: None }));
    assert!(offered.satisfies(&Limits { min: 2, max: Some(4) }));
    assert!(offered.satisfies(&Limits { min: 2, max: Some(8) }));
    assert!(!offered.satisfies(&Limits { min: 3, max: Some(4) }));
    assert!(!offered.satisfies(&Limits { min: 2, max: Some(3) }));

    let unbounded = Limits { min: 2, max: None };
    assert!(unbounded.satisfies(&Limits { min: 2, max: None }));
    assert!(!unbounded.satisfies(&Limits { min: 2, max: Some(100) }));
}
