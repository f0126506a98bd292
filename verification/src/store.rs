//! The engine and the store: the arena that owns every runtime object
//! of one execution session. All references into a store are plain
//! index handles, valid only against the store that issued them.

use vstd::prelude::*;

use crate::types::{FuncType, GlobalType, Limits, RuntimeValue};

verus! {

/// Shared compilation and runtime configuration. An engine owns no
/// per-session mutable state, so any number of stores may reference one
/// engine concurrently.
#[derive(Debug)]
pub struct Engine {}

impl Engine {
    /// Creates an engine.
    pub fn new() -> Engine {
        Engine {  }
    }
}

/// A handle to a function instance inside one [`Store`].
#[derive(Debug, Copy, Clone, PartialEq, Eq, Structural)]
pub struct FuncAddr(pub usize);

/// A handle to a linear memory inside one [`Store`].
#[derive(Debug, Copy, Clone, PartialEq, Eq, Structural)]
pub struct MemoryAddr(pub usize);

/// A handle to a table inside one [`Store`].
#[derive(Debug, Copy, Clone, PartialEq, Eq, Structural)]
pub struct TableAddr(pub usize);

/// A handle to a global variable inside one [`Store`].
#[derive(Debug, Copy, Clone, PartialEq, Eq, Structural)]
pub struct GlobalAddr(pub usize);

/// A handle to an instance inside one [`Store`].
#[derive(Debug, Copy, Clone, PartialEq, Eq, Structural)]
pub struct Instance(pub usize);

/// A definition that can satisfy an import or be exported: a handle to
/// a runtime object of one [`Store`].
#[derive(Debug, Copy, Clone, PartialEq, Eq, Structural)]
pub enum Extern {
    /// A function instance.
    Func(FuncAddr),
    /// A linear memory.
    Memory(MemoryAddr),
    /// A table.
    Table(TableAddr),
    /// A global variable.
    Global(GlobalAddr),
}

/// A function instance: its signature and the handle under which the
/// dispatch loop outside this crate finds its compiled body.
#[derive(Debug)]
pub struct FuncInst {
    /// The function's signature.
    pub ty: FuncType,
    /// The compiled-code handle the external dispatch loop interprets;
    /// for a module's own functions this is the function's index among
    /// the module's declared bodies.
    pub code: usize,
}

/// A linear memory instance: its declared limits and its current size,
/// in pages.
#[derive(Debug, Copy, Clone, PartialEq, Eq)]
pub struct MemoryInst {
    /// The limits the memory was declared with.
    pub limits: Limits,
    /// The current size in pages; starts at the declared minimum.
    pub size: u32,
}

/// A table instance: its declared limits and its current element count.
#[derive(Debug, Copy, Clone, PartialEq, Eq)]
pub struct TableInst {
    /// The limits the table was declared with.
    pub limits: Limits,
    /// The current element count; starts at the declared minimum.
    pub size: u32,
}

/// A global variable instance: its type and its current value.
#[derive(Debug, Copy, Clone, PartialEq, Eq, Structural)]
pub struct GlobalInst {
    /// The global's declared type.
    pub ty: GlobalType,
    /// The global's current value.
    pub value: RuntimeValue,
}

/// One export of an instance: a name bound to a runtime object handle.
#[derive(Debug)]
pub struct ExportBinding {
    /// The export's name.
    pub name: String,
    /// The exported runtime object.
    pub value: Extern,
}

/// The allocated realization of a module inside a store: its export
/// map, fixed at instantiation time.
#[derive(Debug)]
pub struct InstanceData {
    /// The instance's exports.
    pub exports: Vec<ExportBinding>,
}

/// First match of `name` among the bindings, searched front to back.
pub open spec fn spec_lookup_export(bindings: Seq<ExportBinding>, name: Seq<char>) -> Option<
    Extern,
>
    decreases bindings.len(),
{
    if bindings.len() == 0 {
        None
    } else if bindings.first().name@ == name {
        Some(bindings.first().value)
    } else {
        spec_lookup_export(bindings.drop_first(), name)
    }
}

impl InstanceData {
    /// Looks an export up by name.
    pub fn lookup_export(&self, name: &String) -> (r: Option<Extern>)
        ensures
            r == spec_lookup_export(self.exports@, name@),
    {
        let n: usize = self.exports.len();
        let mut i: usize = 0;
        proof {
            assert(self.exports@.skip(0) =~= self.exports@);
        }
        while i < n
            invariant
                n == self.exports@.len(),
                i <= n,
                spec_lookup_export(self.exports@, name@) == spec_lookup_export(
                    self.exports@.skip(i as int),
                    name@,
                ),
            decreases n - i,
        {
            proof {
                assert(self.exports@.skip(i as int).first() == self.exports@[i as int]);
                assert(self.exports@.skip(i as int).drop_first() =~= self.exports@.skip(i + 1));
            }
            if self.exports[i].name == *name {
                return Some(self.exports[i].value);
            }
            i += 1;
        }
        proof {
            assert(self.exports@.skip(n as int) =~= Seq::<ExportBinding>::empty());
        }
        None
    }
}

/// The arena owning all runtime state of one execution session. Every
/// handle issued by a store indexes one of these collections and is
/// meaningless against any other store.
#[derive(Debug)]
pub struct Store {
    /// All function instances, host-defined and module-allocated.
    pub funcs: Vec<FuncInst>,
    /// All linear memories.
    pub memories: Vec<MemoryInst>,
    /// All tables.
    pub tables: Vec<TableInst>,
    /// All global variables.
    pub globals: Vec<GlobalInst>,
    /// All finalized instances.
    pub instances: Vec<InstanceData>,
}

impl Store {
    /// Creates an empty store for a session on the given engine.
    pub fn new(engine: &Engine) -> (r: Store)
        ensures
            r.funcs@ == Seq::<FuncInst>::empty(),
            r.memories@ == Seq::<MemoryInst>::empty(),
            r.tables@ == Seq::<TableInst>::empty(),
            r.globals@ == Seq::<GlobalInst>::empty(),
            r.instances@ == Seq::<InstanceData>::empty(),
    {
        let _ = engine;
        Store {
            funcs: Vec::new(),
            memories: Vec::new(),
            tables: Vec::new(),
            globals: Vec::new(),
            instances: Vec::new(),
        }
    }

    /// Allocates a function instance (typically a host function a
    /// linker will register) and returns its handle.
    pub fn alloc_func(&mut self, ty: FuncType, code: usize) -> (r: FuncAddr)
        ensures
            r.0 == old(self).funcs@.len(),
            final(self).funcs@ == old(self).funcs@.push(FuncInst { ty, code }),
            final(self).memories@ == old(self).memories@,
            final(self).tables@ == old(self).tables@,
            final(self).globals@ == old(self).globals@,
            final(self).instances@ == old(self).instances@,
    {
        let addr = FuncAddr(self.funcs.len());
        self.funcs.push(FuncInst { ty, code });
        addr
    }

    /// Allocates a linear memory sized at its declared minimum and
    /// returns its handle.
    pub fn alloc_memory(&mut self, limits: Limits) -> (r: MemoryAddr)
        ensures
            r.0 == old(self).memories@.len(),
            final(self).memories@ == old(self).memories@.push(
                MemoryInst { limits, size: limits.min },
            ),
            final(self).funcs@ == old(self).funcs@,
            final(self).tables@ == old(self).tables@,
            final(self).globals@ == old(self).globals@,
            final(self).instances@ == old(self).instances@,
    {
        let addr = MemoryAddr(self.memories.len());
        self.memories.push(MemoryInst { limits, size: limits.min });
        addr
    }

    /// Allocates a table sized at its declared minimum and returns its
    /// handle.
    pub fn alloc_table(&mut self, limits: Limits) -> (r: TableAddr)
        ensures
            r.0 == old(self).tables@.len(),
            final(self).tables@ == old(self).tables@.push(TableInst { limits, size: limits.min }),
            final(self).funcs@ == old(self).funcs@,
            final(self).memories@ == old(self).memories@,
            final(self).globals@ == old(self).globals@,
            final(self).instances@ == old(self).instances@,
    {
        let addr = TableAddr(self.tables.len());
        self.tables.push(TableInst { limits, size: limits.min });
        addr
    }

    /// Allocates a global variable holding the given initial value and
    /// returns its handle.
    pub fn alloc_global(&mut self, ty: GlobalType, value: RuntimeValue) -> (r: GlobalAddr)
        requires
            value.spec_ty() == ty.ty,
        ensures
            r.0 == old(self).globals@.len(),
            final(self).globals@ == old(self).globals@.push(GlobalInst { ty, value }),
            final(self).funcs@ == old(self).funcs@,
            final(self).memories@ == old(self).memories@,
            final(self).tables@ == old(self).tables@,
            final(self).instances@ == old(self).instances@,
    {
        let addr = GlobalAddr(self.globals.len());
        self.globals.push(GlobalInst { ty, value });
        addr
    }

    /// Resolves a function handle; `None` exactly when the handle was
    /// not issued by this store.
    pub fn resolve_func(&self, addr: FuncAddr) -> (r: Option<&FuncInst>)
        ensures
            addr.0 < self.funcs@.len() ==> (r matches Some(f) && *f == self.funcs@[addr.0 as int]),
            addr.0 >= self.funcs@.len() ==> r is None,
    {
        if addr.0 < self.funcs.len() {
            Some(&self.funcs[addr.0])
        } else {
            None
        }
    }

    /// Resolves a memory handle; `None` exactly when the handle was
    /// not issued by this store.
    pub fn resolve_memory(&self, addr: MemoryAddr) -> (r: Option<&MemoryInst>)
        ensures
            addr.0 < self.memories@.len() ==> (r matches Some(m) && *m == self.memories@[addr.0
                as int]),
            addr.0 >= self.memories@.len() ==> r is None,
    {
        if addr.0 < self.memories.len() {
            Some(&self.memories[addr.0])
        } else {
            None
        }
    }

    /// Resolves a table handle; `None` exactly when the handle was not
    /// issued by this store.
    pub fn resolve_table(&self, addr: TableAddr) -> (r: Option<&TableInst>)
        ensures
            addr.0 < self.tables@.len() ==> (r matches Some(t) && *t == self.tables@[addr.0
                as int]),
            addr.0 >= self.tables@.len() ==> r is None,
    {
        if addr.0 < self.tables.len() {
            Some(&self.tables[addr.0])
        } else {
            None
        }
    }

    /// Resolves a global handle; `None` exactly when the handle was
    /// not issued by this store.
    pub fn resolve_global(&self, addr: GlobalAddr) -> (r: Option<&GlobalInst>)
        ensures
            addr.0 < self.globals@.len() ==> (r matches Some(g) && *g == self.globals@[addr.0
                as int]),
            addr.0 >= self.globals@.len() ==> r is None,
    {
        if addr.0 < self.globals.len() {
            Some(&self.globals[addr.0])
        } else {
            None
        }
    }

    /// Resolves an instance handle; `None` exactly when the handle was
    /// not issued by this store.
    pub fn resolve_instance(&self, instance: Instance) -> (r: Option<&InstanceData>)
        ensures
            instance.0 < self.instances@.len() ==> (r matches Some(d) && *d
                == self.instances@[instance.0 as int]),
            instance.0 >= self.instances@.len() ==> r is None,
    {
        if instance.0 < self.instances.len() {
            Some(&self.instances[instance.0])
        } else {
            None
        }
    }
}

} // verus!
