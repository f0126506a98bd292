//! The compiled module artifact: its type table, import and export
//! lists, declarations and optional start function, together with the
//! well-formedness invariant that instantiation relies on.

use vstd::prelude::*;

use crate::types::{FuncType, FuncTypeIdx, GlobalType, Limits, RuntimeValue, TypeTable};

verus! {

/// What an import asks for: the kind of definition and the type it
/// must have.
#[derive(Debug)]
pub enum ImportDesc {
    /// A function with the signature at the given index of the
    /// importing module's type table.
    Func(FuncTypeIdx),
    /// A linear memory satisfying the given limits.
    Memory(Limits),
    /// A table satisfying the given limits.
    Table(Limits),
    /// A global of exactly the given type.
    Global(GlobalType),
}

/// One import declaration: a two-part name and the requested type.
#[derive(Debug)]
pub struct Import {
    /// The first part of the name: the module (namespace) it is
    /// imported from.
    pub namespace: String,
    /// The second part of the name: the item within that namespace.
    pub name: String,
    /// The requested kind and type.
    pub desc: ImportDesc,
}

/// One global declaration: its type and the value its initializer
/// expression was evaluated to by the parser.
#[derive(Debug, Copy, Clone)]
pub struct GlobalDecl {
    /// The global's declared type.
    pub ty: GlobalType,
    /// The initial value; must inhabit the declared value type.
    pub init: RuntimeValue,
}

/// What an export points at: an index into the respective index space
/// of the module (imported items first, own declarations after them).
#[derive(Debug, Copy, Clone, PartialEq, Eq, Structural)]
pub enum ExportDesc {
    /// A function, by function-space index.
    Func(u32),
    /// A memory, by memory-space index.
    Memory(u32),
    /// A table, by table-space index.
    Table(u32),
    /// A global, by global-space index.
    Global(u32),
}

/// One export declaration: a name bound to an index-space entry.
#[derive(Debug)]
pub struct Export {
    /// The name the item is exported under.
    pub name: String,
    /// The exported item.
    pub desc: ExportDesc,
}

/// How many of the imports ask for a function.
pub open spec fn func_import_count(imports: Seq<Import>) -> nat
    decreases imports.len(),
{
    if imports.len() == 0 {
        0
    } else {
        func_import_count(imports.drop_last()) + if imports.last().desc is Func {
            1nat
        } else {
            0nat
        }
    }
}

/// How many of the imports ask for a memory.
pub open spec fn memory_import_count(imports: Seq<Import>) -> nat
    decreases imports.len(),
{
    if imports.len() == 0 {
        0
    } else {
        memory_import_count(imports.drop_last()) + if imports.last().desc is Memory {
            1nat
        } else {
            0nat
        }
    }
}

/// How many of the imports ask for a table.
pub open spec fn table_import_count(imports: Seq<Import>) -> nat
    decreases imports.len(),
{
    if imports.len() == 0 {
        0
    } else {
        table_import_count(imports.drop_last()) + if imports.last().desc is Table {
            1nat
        } else {
            0nat
        }
    }
}

/// How many of the imports ask for a global.
pub open spec fn global_import_count(imports: Seq<Import>) -> nat
    decreases imports.len(),
{
    if imports.len() == 0 {
        0
    } else {
        global_import_count(imports.drop_last()) + if imports.last().desc is Global {
            1nat
        } else {
            0nat
        }
    }
}

/// Extending the imports by one entry grows exactly the one count that
/// matches the entry's kind.
pub proof fn lemma_import_count_take_step(imports: Seq<Import>, i: int)
    requires
        0 <= i < imports.len(),
    ensures
        func_import_count(imports.take(i + 1)) == func_import_count(imports.take(i)) + if imports[i].desc is Func {
            1int
        } else {
            0int
        },
        memory_import_count(imports.take(i + 1)) == memory_import_count(imports.take(i))
            + if imports[i].desc is Memory {
            1int
        } else {
            0int
        },
        table_import_count(imports.take(i + 1)) == table_import_count(imports.take(i)) + if imports[i].desc is Table {
            1int
        } else {
            0int
        },
        global_import_count(imports.take(i + 1)) == global_import_count(imports.take(i))
            + if imports[i].desc is Global {
            1int
        } else {
            0int
        },
{
    assert(imports.take(i + 1).drop_last() =~= imports.take(i));
    assert(imports.take(i + 1).last() == imports[i]);
}

/// True when an import's request is internally consistent with the
/// importing module's type table.
pub open spec fn import_desc_wf(desc: ImportDesc, types: Seq<FuncType>) -> bool {
    match desc {
        ImportDesc::Func(idx) => idx.0 < types.len(),
        ImportDesc::Memory(_) => true,
        ImportDesc::Table(_) => true,
        ImportDesc::Global(_) => true,
    }
}

/// A compiled, validated module: immutable once constructed, ready to
/// be instantiated any number of times.
#[derive(Debug)]
pub struct Module {
    /// The module's table of function signatures.
    pub types: TypeTable,
    /// The imports, in declaration order.
    pub imports: Vec<Import>,
    /// The module's own functions: the type of each declared body, in
    /// declaration order.
    pub funcs: Vec<FuncTypeIdx>,
    /// The module's own memory declarations.
    pub memories: Vec<Limits>,
    /// The module's own table declarations.
    pub tables: Vec<Limits>,
    /// The module's own global declarations.
    pub globals: Vec<GlobalDecl>,
    /// The exports, in declaration order.
    pub exports: Vec<Export>,
    /// The start function, as an index into the function index space,
    /// if the module declares one.
    pub start: Option<u32>,
}

/// True when an export points inside the respective index space of the
/// module.
pub open spec fn export_desc_wf(desc: ExportDesc, m: Module) -> bool {
    match desc {
        ExportDesc::Func(j) => j < func_import_count(m.imports@) + m.funcs@.len(),
        ExportDesc::Memory(j) => j < memory_import_count(m.imports@) + m.memories@.len(),
        ExportDesc::Table(j) => j < table_import_count(m.imports@) + m.tables@.len(),
        ExportDesc::Global(j) => j < global_import_count(m.imports@) + m.globals@.len(),
    }
}

impl Module {
    /// The module invariant that compilation establishes: every
    /// function-type index (of an own function or a function import)
    /// is backed by the type table, every global initializer inhabits
    /// its declared type, every export points inside its index space,
    /// and a declared start function lies in the function index space.
    pub open spec fn wf(self) -> bool {
        &&& (forall|i: int|
            0 <= i < self.funcs@.len() ==> (#[trigger] self.funcs@[i]).0 < self.types@.len())
        &&& (forall|i: int|
            0 <= i < self.imports@.len() ==> import_desc_wf(
                (#[trigger] self.imports@[i]).desc,
                self.types@,
            ))
        &&& (forall|i: int|
            0 <= i < self.globals@.len() ==> (#[trigger] self.globals@[i]).init.spec_ty()
                == self.globals@[i].ty.ty)
        &&& (forall|i: int|
            0 <= i < self.exports@.len() ==> export_desc_wf(
                (#[trigger] self.exports@[i]).desc,
                self,
            ))
        &&& match self.start {
            None => true,
            Some(s) => s < func_import_count(self.imports@) + self.funcs@.len(),
        }
    }

    /// Decides the module invariant; compilation runs this before the
    /// artifact is handed out.
    pub fn validate(&self) -> (r: bool)
        ensures
            r == self.wf(),
    {
        let types_len: usize = self.types.len();

        let n_funcs: usize = self.funcs.len();
        let mut i: usize = 0;
        while i < n_funcs
            invariant
                n_funcs == self.funcs@.len(),
                i <= n_funcs,
                types_len == self.types@.len(),
                forall|j: int| 0 <= j < i ==> (#[trigger] self.funcs@[j]).0 < types_len,
            decreases n_funcs - i,
        {
            if self.funcs[i].0 as usize >= types_len {
                return false;
            }
            i += 1;
        }

        let n_imports: usize = self.imports.len();
        let mut i: usize = 0;
        while i < n_imports
            invariant
                n_imports == self.imports@.len(),
                i <= n_imports,
                types_len == self.types@.len(),
                forall|j: int|
                    0 <= j < i ==> import_desc_wf((#[trigger] self.imports@[j]).desc, self.types@),
            decreases n_imports - i,
        {
            match &self.imports[i].desc {
                ImportDesc::Func(idx) => {
                    if idx.0 as usize >= types_len {
                        return false;
                    }
                },
                ImportDesc::Memory(_) => {},
                ImportDesc::Table(_) => {},
                ImportDesc::Global(_) => {},
            }
            i += 1;
        }

        let n_globals: usize = self.globals.len();
        let mut i: usize = 0;
        while i < n_globals
            invariant
                n_globals == self.globals@.len(),
                i <= n_globals,
                forall|j: int|
                    0 <= j < i ==> (#[trigger] self.globals@[j]).init.spec_ty()
                        == self.globals@[j].ty.ty,
            decreases n_globals - i,
        {
            let decl = &self.globals[i];
            if decl.init.ty() != decl.ty.ty {
                return false;
            }
            i += 1;
        }

        let counts = self.count_imports();
        let (fic, mic, tic, gic) = counts;

        let n_exports: usize = self.exports.len();
        let mut i: usize = 0;
        while i < n_exports
            invariant
                n_exports == self.exports@.len(),
                i <= n_exports,
                fic == func_import_count(self.imports@),
                mic == memory_import_count(self.imports@),
                tic == table_import_count(self.imports@),
                gic == global_import_count(self.imports@),
                forall|j: int|
                    0 <= j < i ==> export_desc_wf((#[trigger] self.exports@[j]).desc, *self),
            decreases n_exports - i,
        {
            let in_space = match self.exports[i].desc {
                ExportDesc::Func(j) => (j as usize) < fic || (j as usize) - fic
                    < self.funcs.len(),
                ExportDesc::Memory(j) => (j as usize) < mic || (j as usize) - mic
                    < self.memories.len(),
                ExportDesc::Table(j) => (j as usize) < tic || (j as usize) - tic
                    < self.tables.len(),
                ExportDesc::Global(j) => (j as usize) < gic || (j as usize) - gic
                    < self.globals.len(),
            };
            if !in_space {
                return false;
            }
            i += 1;
        }

        match self.start {
            None => true,
            Some(s) => (s as usize) < fic || (s as usize) - fic < self.funcs.len(),
        }
    }

    /// Counts how many imports ask for a function, a memory, a table
    /// and a global, in that order.
    pub fn count_imports(&self) -> (r: (usize, usize, usize, usize))
        ensures
            r.0 == func_import_count(self.imports@),
            r.1 == memory_import_count(self.imports@),
            r.2 == table_import_count(self.imports@),
            r.3 == global_import_count(self.imports@),
    {
        let n: usize = self.imports.len();
        let mut fic: usize = 0;
        let mut mic: usize = 0;
        let mut tic: usize = 0;
        let mut gic: usize = 0;
        let mut i: usize = 0;
        proof {
            assert(self.imports@.take(0) =~= Seq::<Import>::empty());
        }
        while i < n
            invariant
                n == self.imports@.len(),
                i <= n,
                fic == func_import_count(self.imports@.take(i as int)),
                mic == memory_import_count(self.imports@.take(i as int)),
                tic == table_import_count(self.imports@.take(i as int)),
                gic == global_import_count(self.imports@.take(i as int)),
                fic <= i && mic <= i && tic <= i && gic <= i,
            decreases n - i,
        {
            proof {
                lemma_import_count_take_step(self.imports@, i as int);
            }
            match &self.imports[i].desc {
                ImportDesc::Func(_) => {
                    fic += 1;
                },
                ImportDesc::Memory(_) => {
                    mic += 1;
                },
                ImportDesc::Table(_) => {
                    tic += 1;
                },
                ImportDesc::Global(_) => {
                    gic += 1;
                },
            }
            i += 1;
        }
        proof {
            assert(self.imports@.take(n as int) =~= self.imports@);
        }
        (fic, mic, tic, gic)
    }
}

} // verus!
