//! The linker: a registry of named definitions, and the protocol that
//! resolves a module's imports against it, allocates the module's own
//! declarations into a store, and finalizes the result into an
//! instance.

use vstd::prelude::*;

use crate::module::{
    export_desc_wf, func_import_count, global_import_count, import_desc_wf, memory_import_count,
    table_import_count, ExportDesc, GlobalDecl, Import, ImportDesc, Module,
};
use crate::store::{
    ExportBinding, Extern, FuncAddr, FuncInst, GlobalAddr, GlobalInst, Instance, InstanceData,
    MemoryAddr, MemoryInst, Store, TableAddr, TableInst,
};
use crate::types::{FuncType, Limits};
use vstd::pervasive::unreached;

verus! {

/// One entry of the registry: a definition under a two-part name.
#[derive(Debug)]
pub struct Definition {
    /// The first part of the name (the module the definition answers
    /// for).
    pub namespace: String,
    /// The second part of the name (the item within that namespace).
    pub name: String,
    /// The definition itself: a handle to a runtime object.
    pub ext: Extern,
}

/// An error raised while registering definitions or linking a module.
#[derive(Debug, PartialEq, Eq)]
pub enum LinkError {
    /// The same two-part name was registered twice.
    DuplicateDefinition {
        /// The first part of the doubly registered name.
        namespace: String,
        /// The second part of the doubly registered name.
        name: String,
    },
    /// An import's two-part name is not present in the registry.
    UnresolvedImport {
        /// The first part of the unresolved name.
        namespace: String,
        /// The second part of the unresolved name.
        name: String,
    },
    /// The registry holds a definition under the import's name, but of
    /// an incompatible kind or type.
    ImportTypeMismatch {
        /// The first part of the mismatched import's name.
        namespace: String,
        /// The second part of the mismatched import's name.
        name: String,
    },
}

/// The first definition registered under the given two-part name,
/// searched front to back.
pub open spec fn spec_lookup_def(
    defs: Seq<Definition>,
    namespace: Seq<char>,
    name: Seq<char>,
) -> Option<Extern>
    decreases defs.len(),
{
    if defs.len() == 0 {
        None
    } else if defs.first().namespace@ == namespace && defs.first().name@ == name {
        Some(defs.first().ext)
    } else {
        spec_lookup_def(defs.drop_first(), namespace, name)
    }
}

/// True when the found definition can satisfy the import: the kinds
/// agree, the handle was issued by the store, and the found object's
/// type is compatible with the requested one.
pub open spec fn import_compatible(
    desc: ImportDesc,
    ext: Extern,
    store: Store,
    types: Seq<FuncType>,
) -> bool {
    match (desc, ext) {
        (ImportDesc::Func(idx), Extern::Func(a)) => {
            &&& a.0 < store.funcs@.len()
            &&& idx.0 < types.len()
            &&& store.funcs@[a.0 as int].ty.spec_matches(types[idx.0 as int])
        },
        (ImportDesc::Memory(required), Extern::Memory(a)) => {
            &&& a.0 < store.memories@.len()
            &&& store.memories@[a.0 as int].limits.spec_satisfies(required)
        },
        (ImportDesc::Table(required), Extern::Table(a)) => {
            &&& a.0 < store.tables@.len()
            &&& store.tables@[a.0 as int].limits.spec_satisfies(required)
        },
        (ImportDesc::Global(required), Extern::Global(a)) => {
            &&& a.0 < store.globals@.len()
            &&& store.globals@[a.0 as int].ty == required
        },
        _ => false,
    }
}

/// Why linking failed, stated over the views of the names so that the
/// contracts can speak of it.
pub enum LinkIssue {
    /// No definition is registered under the import's name.
    Unresolved {
        /// The first part of the unresolved name.
        namespace: Seq<char>,
        /// The second part of the unresolved name.
        name: Seq<char>,
    },
    /// The registered definition cannot satisfy the import.
    Mismatch {
        /// The first part of the mismatched import's name.
        namespace: Seq<char>,
        /// The second part of the mismatched import's name.
        name: Seq<char>,
    },
}

/// True when the raised error reports exactly the given issue.
pub open spec fn error_matches_issue(e: LinkError, issue: LinkIssue) -> bool {
    match issue {
        LinkIssue::Unresolved { namespace, name } => e matches LinkError::UnresolvedImport {
            namespace: ens,
            name: en,
        } && ens@ == namespace && en@ == name,
        LinkIssue::Mismatch { namespace, name } => e matches LinkError::ImportTypeMismatch {
            namespace: ens,
            name: en,
        } && ens@ == namespace && en@ == name,
    }
}

/// Resolves the imports in declaration order against the registry: the
/// definition found for each import, or the issue of the first import
/// that cannot be satisfied.
pub open spec fn spec_resolve_imports(
    defs: Seq<Definition>,
    store: Store,
    types: Seq<FuncType>,
    imports: Seq<Import>,
) -> Result<Seq<Extern>, LinkIssue>
    decreases imports.len(),
{
    if imports.len() == 0 {
        Ok(Seq::<Extern>::empty())
    } else {
        match spec_resolve_imports(defs, store, types, imports.drop_last()) {
            Err(issue) => Err(issue),
            Ok(resolved) => {
                let imp = imports.last();
                match spec_lookup_def(defs, imp.namespace@, imp.name@) {
                    None => Err(LinkIssue::Unresolved { namespace: imp.namespace@, name: imp.name@ }),
                    Some(ext) => if import_compatible(imp.desc, ext, store, types) {
                        Ok(resolved.push(ext))
                    } else {
                        Err(LinkIssue::Mismatch { namespace: imp.namespace@, name: imp.name@ })
                    },
                }
            },
        }
    }
}

/// Law: a module that declares no imports links against any registry,
/// any store and any type table.
pub proof fn lemma_no_imports_always_links(
    defs: Seq<Definition>,
    store: Store,
    types: Seq<FuncType>,
    imports: Seq<Import>,
)
    requires
        imports.len() == 0,
    ensures
        spec_resolve_imports(defs, store, types, imports) is Ok,
{
}

/// When every import finds a compatible definition, resolution
/// succeeds and pairs each import with what was found for it.
pub proof fn lemma_resolves_when_all_found(
    defs: Seq<Definition>,
    store: Store,
    types: Seq<FuncType>,
    imports: Seq<Import>,
)
    requires
        forall|j: int|
            0 <= j < imports.len() ==> {
                let found = spec_lookup_def(
                    defs,
                    (#[trigger] imports[j]).namespace@,
                    imports[j].name@,
                );
                found matches Some(ext) && import_compatible(imports[j].desc, ext, store, types)
            },
    ensures
        spec_resolve_imports(defs, store, types, imports) is Ok,
    decreases imports.len(),
{
    if imports.len() > 0 {
        assert(forall|j: int|
            0 <= j < imports.drop_last().len() ==> imports.drop_last()[j] == imports[j]);
        lemma_resolves_when_all_found(defs, store, types, imports.drop_last());
    }
}

/// Law: when the imports before position `i` all find compatible
/// definitions and the import at `i` finds none, linking fails with an
/// unresolved-import issue naming exactly that import's two-part name.
pub proof fn lemma_first_unresolved_import(
    defs: Seq<Definition>,
    store: Store,
    types: Seq<FuncType>,
    imports: Seq<Import>,
    i: int,
)
    requires
        0 <= i < imports.len(),
        forall|j: int|
            0 <= j < i ==> {
                let found = spec_lookup_def(
                    defs,
                    (#[trigger] imports[j]).namespace@,
                    imports[j].name@,
                );
                found matches Some(ext) && import_compatible(imports[j].desc, ext, store, types)
            },
        spec_lookup_def(defs, imports[i].namespace@, imports[i].name@) is None,
    ensures
        spec_resolve_imports(defs, store, types, imports) == Err::<Seq<Extern>, LinkIssue>(
            LinkIssue::Unresolved { namespace: imports[i].namespace@, name: imports[i].name@ },
        ),
    decreases imports.len(),
{
    assert(forall|j: int|
        0 <= j < imports.drop_last().len() ==> imports.drop_last()[j] == imports[j]);
    if i == imports.len() - 1 {
        lemma_resolves_when_all_found(defs, store, types, imports.drop_last());
    } else {
        lemma_first_unresolved_import(defs, store, types, imports.drop_last(), i);
    }
}

/// Law: when the imports before position `i` all find compatible
/// definitions and the import at `i` finds one that cannot satisfy it,
/// linking fails with a type-mismatch issue naming exactly that
/// import's two-part name.
pub proof fn lemma_first_mismatched_import(
    defs: Seq<Definition>,
    store: Store,
    types: Seq<FuncType>,
    imports: Seq<Import>,
    i: int,
)
    requires
        0 <= i < imports.len(),
        forall|j: int|
            0 <= j < i ==> {
                let found = spec_lookup_def(
                    defs,
                    (#[trigger] imports[j]).namespace@,
                    imports[j].name@,
                );
                found matches Some(ext) && import_compatible(imports[j].desc, ext, store, types)
            },
        spec_lookup_def(defs, imports[i].namespace@, imports[i].name@) matches Some(ext)
            && !import_compatible(imports[i].desc, ext, store, types),
    ensures
        spec_resolve_imports(defs, store, types, imports) == Err::<Seq<Extern>, LinkIssue>(
            LinkIssue::Mismatch { namespace: imports[i].namespace@, name: imports[i].name@ },
        ),
    decreases imports.len(),
{
    assert(forall|j: int|
        0 <= j < imports.drop_last().len() ==> imports.drop_last()[j] == imports[j]);
    if i == imports.len() - 1 {
        lemma_resolves_when_all_found(defs, store, types, imports.drop_last());
    } else {
        lemma_first_mismatched_import(defs, store, types, imports.drop_last(), i);
    }
}

/// The handles, among the resolved imports, that fill the function
/// index space, in import order.
pub open spec fn imported_funcs(imports: Seq<Import>, resolved: Seq<Extern>) -> Seq<FuncAddr>
    decreases imports.len(),
{
    if imports.len() == 0 {
        Seq::<FuncAddr>::empty()
    } else {
        let i = imports.len() - 1;
        let prefix = imported_funcs(imports.take(i as int), resolved.take(i as int));
        if imports[i as int].desc is Func {
            prefix.push(resolved[i as int]->Func_0)
        } else {
            prefix
        }
    }
}

/// The handles, among the resolved imports, that fill the memory index
/// space, in import order.
pub open spec fn imported_memories(imports: Seq<Import>, resolved: Seq<Extern>) -> Seq<MemoryAddr>
    decreases imports.len(),
{
    if imports.len() == 0 {
        Seq::<MemoryAddr>::empty()
    } else {
        let i = imports.len() - 1;
        let prefix = imported_memories(imports.take(i as int), resolved.take(i as int));
        if imports[i as int].desc is Memory {
            prefix.push(resolved[i as int]->Memory_0)
        } else {
            prefix
        }
    }
}

/// The handles, among the resolved imports, that fill the table index
/// space, in import order.
pub open spec fn imported_tables(imports: Seq<Import>, resolved: Seq<Extern>) -> Seq<TableAddr>
    decreases imports.len(),
{
    if imports.len() == 0 {
        Seq::<TableAddr>::empty()
    } else {
        let i = imports.len() - 1;
        let prefix = imported_tables(imports.take(i as int), resolved.take(i as int));
        if imports[i as int].desc is Table {
            prefix.push(resolved[i as int]->Table_0)
        } else {
            prefix
        }
    }
}

/// The handles, among the resolved imports, that fill the global index
/// space, in import order.
pub open spec fn imported_globals(imports: Seq<Import>, resolved: Seq<Extern>) -> Seq<GlobalAddr>
    decreases imports.len(),
{
    if imports.len() == 0 {
        Seq::<GlobalAddr>::empty()
    } else {
        let i = imports.len() - 1;
        let prefix = imported_globals(imports.take(i as int), resolved.take(i as int));
        if imports[i as int].desc is Global {
            prefix.push(resolved[i as int]->Global_0)
        } else {
            prefix
        }
    }
}

/// One step of walking the imports extends exactly the one index space
/// that matches the import's kind.
pub proof fn lemma_imported_take_step(imports: Seq<Import>, resolved: Seq<Extern>, i: int)
    requires
        0 <= i < imports.len(),
        i < resolved.len(),
    ensures
        imported_funcs(imports.take(i + 1), resolved.take(i + 1)) == (if imports[i].desc is Func {
            imported_funcs(imports.take(i), resolved.take(i)).push(resolved[i]->Func_0)
        } else {
            imported_funcs(imports.take(i), resolved.take(i))
        }),
        imported_memories(imports.take(i + 1), resolved.take(i + 1)) == (
        if imports[i].desc is Memory {
            imported_memories(imports.take(i), resolved.take(i)).push(resolved[i]->Memory_0)
        } else {
            imported_memories(imports.take(i), resolved.take(i))
        }),
        imported_tables(imports.take(i + 1), resolved.take(i + 1)) == (
        if imports[i].desc is Table {
            imported_tables(imports.take(i), resolved.take(i)).push(resolved[i]->Table_0)
        } else {
            imported_tables(imports.take(i), resolved.take(i))
        }),
        imported_globals(imports.take(i + 1), resolved.take(i + 1)) == (
        if imports[i].desc is Global {
            imported_globals(imports.take(i), resolved.take(i)).push(resolved[i]->Global_0)
        } else {
            imported_globals(imports.take(i), resolved.take(i))
        }),
{
    assert(imports.take(i + 1).take(i) =~= imports.take(i));
    assert(resolved.take(i + 1).take(i) =~= resolved.take(i));
    assert(imports.take(i + 1)[i] == imports[i]);
    assert(resolved.take(i + 1)[i] == resolved[i]);
}

/// Each imported index space is as long as the count of imports of its
/// kind.
pub proof fn lemma_imported_lens(imports: Seq<Import>, resolved: Seq<Extern>)
    ensures
        imported_funcs(imports, resolved).len() == func_import_count(imports),
        imported_memories(imports, resolved).len() == memory_import_count(imports),
        imported_tables(imports, resolved).len() == table_import_count(imports),
        imported_globals(imports, resolved).len() == global_import_count(imports),
    decreases imports.len(),
{
    if imports.len() > 0 {
        let i = imports.len() - 1;
        lemma_imported_lens(imports.take(i as int), resolved.take(i as int));
        assert(imports.take(i as int) =~= imports.drop_last());
    }
}

/// The function index space of an instance of `m`: the imported
/// function handles, then the module's own functions, allocated
/// starting at `base`.
pub open spec fn spec_func_space(m: Module, resolved: Seq<Extern>, base: int) -> Seq<FuncAddr> {
    imported_funcs(m.imports@, resolved) + Seq::new(
        m.funcs@.len(),
        |j: int| FuncAddr((base + j) as usize),
    )
}

/// The memory index space of an instance of `m`.
pub open spec fn spec_memory_space(m: Module, resolved: Seq<Extern>, base: int) -> Seq<
    MemoryAddr,
> {
    imported_memories(m.imports@, resolved) + Seq::new(
        m.memories@.len(),
        |j: int| MemoryAddr((base + j) as usize),
    )
}

/// The table index space of an instance of `m`.
pub open spec fn spec_table_space(m: Module, resolved: Seq<Extern>, base: int) -> Seq<TableAddr> {
    imported_tables(m.imports@, resolved) + Seq::new(
        m.tables@.len(),
        |j: int| TableAddr((base + j) as usize),
    )
}

/// The global index space of an instance of `m`.
pub open spec fn spec_global_space(m: Module, resolved: Seq<Extern>, base: int) -> Seq<
    GlobalAddr,
> {
    imported_globals(m.imports@, resolved) + Seq::new(
        m.globals@.len(),
        |j: int| GlobalAddr((base + j) as usize),
    )
}

/// The runtime object an export points at, read off the instance's
/// index spaces.
pub open spec fn spec_export_target(
    desc: ExportDesc,
    funcs: Seq<FuncAddr>,
    memories: Seq<MemoryAddr>,
    tables: Seq<TableAddr>,
    globals: Seq<GlobalAddr>,
) -> Extern {
    match desc {
        ExportDesc::Func(j) => Extern::Func(funcs[j as int]),
        ExportDesc::Memory(j) => Extern::Memory(memories[j as int]),
        ExportDesc::Table(j) => Extern::Table(tables[j as int]),
        ExportDesc::Global(j) => Extern::Global(globals[j as int]),
    }
}

/// True when the allocated function instance carries the given
/// signature and compiled-code handle.
pub open spec fn func_inst_matches(fi: FuncInst, ty: FuncType, code: int) -> bool {
    &&& fi.ty.params@ == ty.params@
    &&& fi.ty.results@ == ty.results@
    &&& fi.code == code
}

/// The registry mapping two-part names to definitions. Definitions are
/// registered during a setup phase and consulted read-only while
/// instantiating; registering a name twice is rejected.
#[derive(Debug)]
pub struct Linker {
    /// The registered definitions, oldest first.
    pub defs: Vec<Definition>,
}

impl Linker {
    /// Creates an empty registry.
    pub fn new() -> (r: Linker)
        ensures
            r.defs@ == Seq::<Definition>::empty(),
    {
        Linker { defs: Vec::new() }
    }

    /// Looks the definition registered under `(namespace, name)` up.
    pub fn lookup(&self, namespace: &String, name: &String) -> (r: Option<Extern>)
        ensures
            r == spec_lookup_def(self.defs@, namespace@, name@),
    {
        let n: usize = self.defs.len();
        let mut i: usize = 0;
        proof {
            assert(self.defs@.skip(0) =~= self.defs@);
        }
        while i < n
            invariant
                n == self.defs@.len(),
                i <= n,
                spec_lookup_def(self.defs@, namespace@, name@) == spec_lookup_def(
                    self.defs@.skip(i as int),
                    namespace@,
                    name@,
                ),
            decreases n - i,
        {
            proof {
                assert(self.defs@.skip(i as int).first() == self.defs@[i as int]);
                assert(self.defs@.skip(i as int).drop_first() =~= self.defs@.skip(i + 1));
            }
            let entry = &self.defs[i];
            if entry.namespace == *namespace && entry.name == *name {
                return Some(entry.ext);
            }
            i += 1;
        }
        proof {
            assert(self.defs@.skip(n as int) =~= Seq::<Definition>::empty());
        }
        None
    }

    /// Registers a definition under a two-part name; rejects the name
    /// if it is already taken, leaving the registry unchanged.
    pub fn define(&mut self, namespace: String, name: String, ext: Extern) -> (r: Result<
        (),
        LinkError,
    >)
        ensures
            spec_lookup_def(old(self).defs@, namespace@, name@) is Some ==> {
                &&& final(self).defs@ == old(self).defs@
                &&& r matches Err(e)
                &&& e matches LinkError::DuplicateDefinition { namespace: ens, name: en }
                &&& ens@ == namespace@
                &&& en@ == name@
            },
            spec_lookup_def(old(self).defs@, namespace@, name@) is None ==> {
                &&& r is Ok
                &&& final(self).defs@ == old(self).defs@.push(
                    Definition { namespace, name, ext },
                )
            },
    {
        if self.lookup(&namespace, &name).is_some() {
            return Err(LinkError::DuplicateDefinition { namespace, name });
        }
        self.defs.push(Definition { namespace, name, ext });
        Ok(())
    }

    /// Resolves every import of `module` against this registry,
    /// allocates the module's own declarations into `store`, and
    /// returns the pre-instance, which has not yet run a start
    /// function. On any failure the store is left exactly as it was.
    pub fn instantiate(&self, store: &mut Store, module: &Module) -> (r: Result<
        InstancePre,
        LinkError,
    >)
        requires
            module.wf(),
        ensures
            r is Ok <==> spec_resolve_imports(
                self.defs@,
                *old(store),
                module.types@,
                module.imports@,
            ) is Ok,
            r matches Err(e) ==> {
                &&& *final(store) == *old(store)
                &&& spec_resolve_imports(
                    self.defs@,
                    *old(store),
                    module.types@,
                    module.imports@,
                ) matches Err(issue) && error_matches_issue(e, issue)
            },
            r matches Ok(pre) ==> {
                &&& spec_resolve_imports(
                    self.defs@,
                    *old(store),
                    module.types@,
                    module.imports@,
                ) matches Ok(resolved)
                &&& final(store).funcs@.len() == old(store).funcs@.len() + module.funcs@.len()
                &&& final(store).funcs@.take(old(store).funcs@.len() as int) == old(store).funcs@
                &&& (forall|j: int|
                    0 <= j < module.funcs@.len() ==> func_inst_matches(
                        final(store).funcs@[old(store).funcs@.len() + j],
                        module.types@[(#[trigger] module.funcs@[j]).0 as int],
                        j,
                    ))
                &&& final(store).memories@ == old(store).memories@ + module.memories@.map_values(
                    |l: Limits| MemoryInst { limits: l, size: l.min },
                )
                &&& final(store).tables@ == old(store).tables@ + module.tables@.map_values(
                    |l: Limits| TableInst { limits: l, size: l.min },
                )
                &&& final(store).globals@ == old(store).globals@ + module.globals@.map_values(
                    |g: GlobalDecl| GlobalInst { ty: g.ty, value: g.init },
                )
                &&& final(store).instances@ == old(store).instances@
                &&& pre.funcs@ == spec_func_space(*module, resolved, old(store).funcs@.len() as int)
                &&& pre.memories@ == spec_memory_space(
                    *module,
                    resolved,
                    old(store).memories@.len() as int,
                )
                &&& pre.tables@ == spec_table_space(
                    *module,
                    resolved,
                    old(store).tables@.len() as int,
                )
                &&& pre.globals@ == spec_global_space(
                    *module,
                    resolved,
                    old(store).globals@.len() as int,
                )
                &&& pre.exports@.len() == module.exports@.len()
                &&& (forall|i: int|
                    0 <= i < module.exports@.len() ==> {
                        &&& (#[trigger] pre.exports@[i]).name@ == module.exports@[i].name@
                        &&& pre.exports@[i].value == spec_export_target(
                            module.exports@[i].desc,
                            spec_func_space(*module, resolved, old(store).funcs@.len() as int),
                            spec_memory_space(
                                *module,
                                resolved,
                                old(store).memories@.len() as int,
                            ),
                            spec_table_space(*module, resolved, old(store).tables@.len() as int),
                            spec_global_space(*module, resolved, old(store).globals@.len() as int),
                        )
                    })
                &&& match module.start {
                    None => pre.start is None,
                    Some(s) => pre.start == Some(
                        spec_func_space(*module, resolved, old(store).funcs@.len() as int)[s as int],
                    ),
                }
            },
    {
        let n_imports: usize = module.imports.len();
        let mut resolved: Vec<Extern> = Vec::new();
        let mut i: usize = 0;
        proof {
            assert(module.imports@.take(0) =~= Seq::<Import>::empty());
        }
        while i < n_imports
            invariant
                n_imports == module.imports@.len(),
                i <= n_imports,
                module.wf(),
                resolved@.len() == i,
                *store == *old(store),
                spec_resolve_imports(
                    self.defs@,
                    *old(store),
                    module.types@,
                    module.imports@.take(i as int),
                ) == Ok::<Seq<Extern>, LinkIssue>(resolved@),
                forall|j: int|
                    0 <= j < i ==> {
                        let found = spec_lookup_def(
                            self.defs@,
                            (#[trigger] module.imports@[j]).namespace@,
                            module.imports@[j].name@,
                        );
                        &&& found == Some(resolved@[j])
                        &&& import_compatible(
                            module.imports@[j].desc,
                            resolved@[j],
                            *old(store),
                            module.types@,
                        )
                    },
            decreases n_imports - i,
        {
            proof {
                assert(module.imports@.take(i + 1).drop_last() =~= module.imports@.take(i as int));
                assert(module.imports@.take(i + 1).last() == module.imports@[i as int]);
            }
            let imp = &module.imports[i];
            match self.lookup(&imp.namespace, &imp.name) {
                None => {
                    proof {
                        lemma_first_unresolved_import(
                            self.defs@,
                            *old(store),
                            module.types@,
                            module.imports@,
                            i as int,
                        );
                    }
                    return Err(
                        LinkError::UnresolvedImport {
                            namespace: imp.namespace.clone(),
                            name: imp.name.clone(),
                        },
                    );
                },
                Some(ext) => {
                    let compatible: bool = match (&imp.desc, ext) {
                        (ImportDesc::Func(idx), Extern::Func(a)) => match store.resolve_func(a) {
                            Some(found) => match module.types.get(*idx) {
                                Some(required) => found.ty.matches(required),
                                None => false,
                            },
                            None => false,
                        },
                        (ImportDesc::Memory(required), Extern::Memory(a)) => match store
                            .resolve_memory(a) {
                            Some(found) => found.limits.satisfies(required),
                            None => false,
                        },
                        (ImportDesc::Table(required), Extern::Table(a)) => match store
                            .resolve_table(a) {
                            Some(found) => found.limits.satisfies(required),
                            None => false,
                        },
                        (ImportDesc::Global(required), Extern::Global(a)) => match store
                            .resolve_global(a) {
                            Some(found) => found.ty == *required,
                            None => false,
                        },
                        _ => false,
                    };
                    proof {
                        assert(import_desc_wf(module.imports@[i as int].desc, module.types@));
                        assert(compatible == import_compatible(
                            imp.desc,
                            ext,
                            *old(store),
                            module.types@,
                        ));
                    }
                    if !compatible {
                        proof {
                            lemma_first_mismatched_import(
                                self.defs@,
                                *old(store),
                                module.types@,
                                module.imports@,
                                i as int,
                            );
                        }
                        return Err(
                            LinkError::ImportTypeMismatch {
                                namespace: imp.namespace.clone(),
                                name: imp.name.clone(),
                            },
                        );
                    }
                    resolved.push(ext);
                },
            }
            i += 1;
        }
        proof {
            assert(module.imports@.take(n_imports as int) =~= module.imports@);
        }
        let ghost resolved_g = resolved@;

        let base_f: usize = store.funcs.len();
        let base_m: usize = store.memories.len();
        let base_t: usize = store.tables.len();
        let base_g: usize = store.globals.len();

        let mut func_space: Vec<FuncAddr> = Vec::new();
        let mut memory_space: Vec<MemoryAddr> = Vec::new();
        let mut table_space: Vec<TableAddr> = Vec::new();
        let mut global_space: Vec<GlobalAddr> = Vec::new();
        let mut i: usize = 0;
        proof {
            assert(module.imports@.take(0) =~= Seq::<Import>::empty());
            assert(resolved_g.take(0) =~= Seq::<Extern>::empty());
        }
        while i < n_imports
            invariant
                n_imports == module.imports@.len(),
                i <= n_imports,
                resolved@ == resolved_g,
                resolved_g.len() == n_imports,
                *store == *old(store),
                func_space@ == imported_funcs(
                    module.imports@.take(i as int),
                    resolved_g.take(i as int),
                ),
                memory_space@ == imported_memories(
                    module.imports@.take(i as int),
                    resolved_g.take(i as int),
                ),
                table_space@ == imported_tables(
                    module.imports@.take(i as int),
                    resolved_g.take(i as int),
                ),
                global_space@ == imported_globals(
                    module.imports@.take(i as int),
                    resolved_g.take(i as int),
                ),
                forall|j: int|
                    0 <= j < n_imports ==> import_compatible(
                        (#[trigger] module.imports@[j]).desc,
                        resolved_g[j],
                        *old(store),
                        module.types@,
                    ),
            decreases n_imports - i,
        {
            proof {
                lemma_imported_take_step(module.imports@, resolved_g, i as int);
            }
            let ext = resolved[i];
            match &module.imports[i].desc {
                ImportDesc::Func(_) => match ext {
                    Extern::Func(a) => func_space.push(a),
                    _ => {
                        proof {
                            assert(false);
                        }
                    },
                },
                ImportDesc::Memory(_) => match ext {
                    Extern::Memory(a) => memory_space.push(a),
                    _ => {
                        proof {
                            assert(false);
                        }
                    },
                },
                ImportDesc::Table(_) => match ext {
                    Extern::Table(a) => table_space.push(a),
                    _ => {
                        proof {
                            assert(false);
                        }
                    },
                },
                ImportDesc::Global(_) => match ext {
                    Extern::Global(a) => global_space.push(a),
                    _ => {
                        proof {
                            assert(false);
                        }
                    },
                },
            }
            i += 1;
        }
        proof {
            assert(module.imports@.take(n_imports as int) =~= module.imports@);
            assert(resolved_g.take(n_imports as int) =~= resolved_g);
        }

        let n_funcs: usize = module.funcs.len();
        let mut j: usize = 0;
        while j < n_funcs
            invariant
                n_funcs == module.funcs@.len(),
                j <= n_funcs,
                module.wf(),
                base_f == old(store).funcs@.len(),
                store.funcs@.len() == base_f + j,
                store.funcs@.take(base_f as int) == old(store).funcs@,
                forall|k: int|
                    0 <= k < j ==> func_inst_matches(
                        store.funcs@[base_f + k],
                        module.types@[(#[trigger] module.funcs@[k]).0 as int],
                        k,
                    ),
                store.memories@ == old(store).memories@,
                store.tables@ == old(store).tables@,
                store.globals@ == old(store).globals@,
                store.instances@ == old(store).instances@,
                func_space@ == imported_funcs(module.imports@, resolved_g) + Seq::new(
                    j as nat,
                    |t: int| FuncAddr((base_f + t) as usize),
                ),
            decreases n_funcs - j,
        {
            let idx = module.funcs[j];
            // The module invariant puts every own function's type
            // index in range, so this lookup cannot miss.
            let required = match module.types.get(idx) {
                Some(ft) => ft,
                None => unreached(),
            };
            let addr = store.alloc_func(required.duplicate(), j);
            func_space.push(addr);
            proof {
                assert(store.funcs@.take(base_f as int) =~= old(store).funcs@);
                assert(Seq::new((j + 1) as nat, |t: int| FuncAddr((base_f + t) as usize)) =~= Seq::new(
                    j as nat,
                    |t: int| FuncAddr((base_f + t) as usize),
                ).push(FuncAddr((base_f + j) as usize)));
            }
            j += 1;
        }
        proof {
            assert(func_space@ == spec_func_space(*module, resolved_g, base_f as int));
        }
        let ghost funcs_done = store.funcs@;

        let n_memories: usize = module.memories.len();
        let mut j: usize = 0;
        while j < n_memories
            invariant
                n_memories == module.memories@.len(),
                j <= n_memories,
                base_m == old(store).memories@.len(),
                store.memories@ == old(store).memories@ + module.memories@.take(
                    j as int,
                ).map_values(|l: Limits| MemoryInst { limits: l, size: l.min }),
                store.funcs@ == funcs_done,
                store.tables@ == old(store).tables@,
                store.globals@ == old(store).globals@,
                store.instances@ == old(store).instances@,
                memory_space@ == imported_memories(module.imports@, resolved_g) + Seq::new(
                    j as nat,
                    |t: int| MemoryAddr((base_m + t) as usize),
                ),
            decreases n_memories - j,
        {
            let limits = module.memories[j];
            let addr = store.alloc_memory(limits);
            memory_space.push(addr);
            proof {
                assert(module.memories@.take(j + 1).map_values(
                    |l: Limits| MemoryInst { limits: l, size: l.min },
                ) =~= module.memories@.take(j as int).map_values(
                    |l: Limits| MemoryInst { limits: l, size: l.min },
                ).push(MemoryInst { limits, size: limits.min }));
                assert(store.memories@ =~= old(store).memories@ + module.memories@.take(
                    j + 1,
                ).map_values(|l: Limits| MemoryInst { limits: l, size: l.min }));
                assert(Seq::new((j + 1) as nat, |t: int| MemoryAddr((base_m + t) as usize))
                    =~= Seq::new(j as nat, |t: int| MemoryAddr((base_m + t) as usize)).push(
                    MemoryAddr((base_m + j) as usize),
                ));
            }
            j += 1;
        }
        proof {
            assert(module.memories@.take(n_memories as int) =~= module.memories@);
            assert(memory_space@ == spec_memory_space(*module, resolved_g, base_m as int));
        }
        let ghost memories_done = store.memories@;

        let n_tables: usize = module.tables.len();
        let mut j: usize = 0;
        while j < n_tables
            invariant
                n_tables == module.tables@.len(),
                j <= n_tables,
                base_t == old(store).tables@.len(),
                store.tables@ == old(store).tables@ + module.tables@.take(j as int).map_values(
                    |l: Limits| TableInst { limits: l, size: l.min },
                ),
                store.funcs@ == funcs_done,
                store.memories@ == memories_done,
                store.globals@ == old(store).globals@,
                store.instances@ == old(store).instances@,
                table_space@ == imported_tables(module.imports@, resolved_g) + Seq::new(
                    j as nat,
                    |t: int| TableAddr((base_t + t) as usize),
                ),
            decreases n_tables - j,
        {
            let limits = module.tables[j];
            let addr = store.alloc_table(limits);
            table_space.push(addr);
            proof {
                assert(module.tables@.take(j + 1).map_values(
                    |l: Limits| TableInst { limits: l, size: l.min },
                ) =~= module.tables@.take(j as int).map_values(
                    |l: Limits| TableInst { limits: l, size: l.min },
                ).push(TableInst { limits, size: limits.min }));
                assert(store.tables@ =~= old(store).tables@ + module.tables@.take(
                    j + 1,
                ).map_values(|l: Limits| TableInst { limits: l, size: l.min }));
                assert(Seq::new((j + 1) as nat, |t: int| TableAddr((base_t + t) as usize))
                    =~= Seq::new(j as nat, |t: int| TableAddr((base_t + t) as usize)).push(
                    TableAddr((base_t + j) as usize),
                ));
            }
            j += 1;
        }
        proof {
            assert(module.tables@.take(n_tables as int) =~= module.tables@);
            assert(table_space@ == spec_table_space(*module, resolved_g, base_t as int));
        }
        let ghost tables_done = store.tables@;

        let n_globals: usize = module.globals.len();
        let mut j: usize = 0;
        while j < n_globals
            invariant
                n_globals == module.globals@.len(),
                j <= n_globals,
                module.wf(),
                base_g == old(store).globals@.len(),
                store.globals@ == old(store).globals@ + module.globals@.take(j as int).map_values(
                    |g: GlobalDecl| GlobalInst { ty: g.ty, value: g.init },
                ),
                store.funcs@ == funcs_done,
                store.memories@ == memories_done,
                store.tables@ == tables_done,
                store.instances@ == old(store).instances@,
                global_space@ == imported_globals(module.imports@, resolved_g) + Seq::new(
                    j as nat,
                    |t: int| GlobalAddr((base_g + t) as usize),
                ),
            decreases n_globals - j,
        {
            let decl = module.globals[j];
            let addr = store.alloc_global(decl.ty, decl.init);
            global_space.push(addr);
            proof {
                assert(module.globals@.take(j + 1).map_values(
                    |g: GlobalDecl| GlobalInst { ty: g.ty, value: g.init },
                ) =~= module.globals@.take(j as int).map_values(
                    |g: GlobalDecl| GlobalInst { ty: g.ty, value: g.init },
                ).push(GlobalInst { ty: decl.ty, value: decl.init }));
                assert(store.globals@ =~= old(store).globals@ + module.globals@.take(
                    j + 1,
                ).map_values(|g: GlobalDecl| GlobalInst { ty: g.ty, value: g.init }));
                assert(Seq::new((j + 1) as nat, |t: int| GlobalAddr((base_g + t) as usize))
                    =~= Seq::new(j as nat, |t: int| GlobalAddr((base_g + t) as usize)).push(
                    GlobalAddr((base_g + j) as usize),
                ));
            }
            j += 1;
        }
        proof {
            assert(module.globals@.take(n_globals as int) =~= module.globals@);
            assert(global_space@ == spec_global_space(*module, resolved_g, base_g as int));
            lemma_imported_lens(module.imports@, resolved_g);
        }

        let n_exports: usize = module.exports.len();
        let mut exports: Vec<ExportBinding> = Vec::new();
        let mut i: usize = 0;
        while i < n_exports
            invariant
                n_exports == module.exports@.len(),
                i <= n_exports,
                module.wf(),
                exports@.len() == i,
                func_space@ == spec_func_space(*module, resolved_g, base_f as int),
                memory_space@ == spec_memory_space(*module, resolved_g, base_m as int),
                table_space@ == spec_table_space(*module, resolved_g, base_t as int),
                global_space@ == spec_global_space(*module, resolved_g, base_g as int),
                func_space@.len() == func_import_count(module.imports@) + module.funcs@.len(),
                memory_space@.len() == memory_import_count(module.imports@)
                    + module.memories@.len(),
                table_space@.len() == table_import_count(module.imports@) + module.tables@.len(),
                global_space@.len() == global_import_count(module.imports@)
                    + module.globals@.len(),
                forall|k: int|
                    0 <= k < i ==> {
                        &&& (#[trigger] exports@[k]).name@ == module.exports@[k].name@
                        &&& exports@[k].value == spec_export_target(
                            module.exports@[k].desc,
                            func_space@,
                            memory_space@,
                            table_space@,
                            global_space@,
                        )
                    },
            decreases n_exports - i,
        {
            let exp = &module.exports[i];
            proof {
                assert(export_desc_wf(module.exports@[i as int].desc, *module));
            }
            let value = match exp.desc {
                ExportDesc::Func(j) => Extern::Func(func_space[j as usize]),
                ExportDesc::Memory(j) => Extern::Memory(memory_space[j as usize]),
                ExportDesc::Table(j) => Extern::Table(table_space[j as usize]),
                ExportDesc::Global(j) => Extern::Global(global_space[j as usize]),
            };
            exports.push(ExportBinding { name: exp.name.clone(), value });
            i += 1;
        }

        let start: Option<FuncAddr> = match module.start {
            None => None,
            Some(s) => Some(func_space[s as usize]),
        };

        Ok(InstancePre { funcs: func_space, memories: memory_space, tables: table_space, globals: global_space, exports, start })
    }
}

/// The pre-instance: imports resolved and own declarations allocated,
/// the start function not yet considered.
#[derive(Debug)]
pub struct InstancePre {
    /// The function index space: imported functions, then own ones.
    pub funcs: Vec<FuncAddr>,
    /// The memory index space: imported memories, then own ones.
    pub memories: Vec<MemoryAddr>,
    /// The table index space: imported tables, then own ones.
    pub tables: Vec<TableAddr>,
    /// The global index space: imported globals, then own ones.
    pub globals: Vec<GlobalAddr>,
    /// The exports, resolved to handles.
    pub exports: Vec<ExportBinding>,
    /// The start function's handle, if the module declares one.
    pub start: Option<FuncAddr>,
}

/// A runtime fault that aborted execution of a call chain; carries a
/// code the dispatch loop outside this crate assigns.
#[derive(Debug, Copy, Clone, PartialEq, Eq, Structural)]
pub struct Trap {
    /// The fault's code, as the dispatch loop reported it.
    pub code: u32,
}

/// An error raised while finalizing a pre-instance.
#[derive(Debug, Copy, Clone, PartialEq, Eq, Structural)]
pub enum InstantiationError {
    /// The module declares a start function, but the caller required
    /// instantiation without implicit execution.
    FoundStartFn,
    /// The start function trapped; the instance was never handed out.
    StartTrapped(Trap),
}

impl InstancePre {
    /// The handle of the start function the caller must run before the
    /// instance may be finalized, if the module declares one.
    pub fn start_fn(&self) -> (r: Option<FuncAddr>)
        ensures
            r == self.start,
    {
        self.start
    }

    /// Finalizes a pre-instance of a module that declares no start
    /// function, registering the instance in the store; rejects a
    /// module that does declare one, leaving the store unchanged.
    pub fn ensure_no_start_fn(self, store: &mut Store) -> (r: Result<
        Instance,
        InstantiationError,
    >)
        ensures
            self.start is Some ==> {
                &&& r == Err::<Instance, InstantiationError>(InstantiationError::FoundStartFn)
                &&& *final(store) == *old(store)
            },
            self.start is None ==> {
                &&& r matches Ok(instance) && instance.0 == old(store).instances@.len()
                &&& final(store).instances@ == old(store).instances@.push(
                    InstanceData { exports: self.exports },
                )
                &&& final(store).funcs@ == old(store).funcs@
                &&& final(store).memories@ == old(store).memories@
                &&& final(store).tables@ == old(store).tables@
                &&& final(store).globals@ == old(store).globals@
            },
    {
        if self.start.is_some() {
            return Err(InstantiationError::FoundStartFn);
        }
        let instance = Instance(store.instances.len());
        store.instances.push(InstanceData { exports: self.exports });
        Ok(instance)
    }

    /// Finalizes a pre-instance after its start function was run: the
    /// dispatch loop lives outside this crate, so the caller runs the
    /// function named by [`InstancePre::start_fn`] and reports the
    /// outcome here. A trap aborts finalization: no instance handle is
    /// handed out, while every object already allocated for it stays
    /// in the store. When the module declares no start function the
    /// outcome is ignored, since there was nothing to run.
    pub fn finish_start(self, store: &mut Store, outcome: Result<(), Trap>) -> (r: Result<
        Instance,
        InstantiationError,
    >)
        ensures
            self.start is Some ==> (outcome matches Err(trap) ==> {
                &&& r == Err::<Instance, InstantiationError>(
                    InstantiationError::StartTrapped(trap),
                )
                &&& *final(store) == *old(store)
            }),
            (self.start is None || outcome is Ok) ==> {
                &&& r matches Ok(instance) && instance.0 == old(store).instances@.len()
                &&& final(store).instances@ == old(store).instances@.push(
                    InstanceData { exports: self.exports },
                )
                &&& final(store).funcs@ == old(store).funcs@
                &&& final(store).memories@ == old(store).memories@
                &&& final(store).tables@ == old(store).tables@
                &&& final(store).globals@ == old(store).globals@
            },
    {
        if self.start.is_some() {
            if let Err(trap) = outcome {
                return Err(InstantiationError::StartTrapped(trap));
            }
        }
        let instance = Instance(store.instances.len());
        store.instances.push(InstanceData { exports: self.exports });
        Ok(instance)
    }
}

} // verus!
