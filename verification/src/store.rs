//! The store: the arena that owns every function, global, memory, table and
//! module instance, each found again by the identifier that its allocation
//! returned.

use vstd::prelude::*;
use vstd::hash_map::StringHashMap;
use std::sync::Arc;
use crate::elements::{
    FunctionType,
    GlobalType,
    MemoryType,
    ResizableLimits,
    Signature,
    TableType,
    LINEAR_MEMORY_MAX_PAGES,
};
use crate::error::Error;
use crate::func::AnyFunc;
use crate::value::RuntimeValue;

verus! {

/// Identifies a function type of a store.
#[derive(Clone, Copy, Debug, PartialEq, Eq, Structural)]
pub struct TypeId(pub usize);

/// Identifies a function of a store.
#[derive(Clone, Copy, Debug, PartialEq, Eq, Structural)]
pub struct FuncId(pub usize);

/// Identifies a global of a store.
#[derive(Clone, Copy, Debug, PartialEq, Eq, Structural)]
pub struct GlobalId(pub usize);

/// Identifies a memory of a store.
#[derive(Clone, Copy, Debug, PartialEq, Eq, Structural)]
pub struct MemoryId(pub usize);

/// Identifies a table of a store.
#[derive(Clone, Copy, Debug, PartialEq, Eq, Structural)]
pub struct TableId(pub usize);

/// Identifies a module instance of a store.
#[derive(Clone, Copy, Debug, PartialEq, Eq, Structural)]
pub struct ModuleId(pub usize);

/// What a module exports under a name: one item of the store.
#[derive(Clone, Copy, Debug, PartialEq, Eq, Structural)]
pub enum ExternVal {
    Func(FuncId),
    Global(GlobalId),
    Memory(MemoryId),
    Table(TableId),
}

/// A host callable behind the uniform calling convention, shared by every
/// call site that refers to it.
pub type SharedFunc<St> = Arc<Box<dyn AnyFunc<St>>>;

/// A function of the store: its type and the host callable behind it.
#[verifier::reject_recursive_types(St)]
pub struct FuncInstance<St> {
    pub type_id: TypeId,
    pub host_func: SharedFunc<St>,
}

/// A global of the store: its type and the value it was created with.
#[derive(Clone, Copy, Debug, PartialEq, Eq, Structural)]
pub struct GlobalInstance {
    pub global_type: GlobalType,
    pub value: RuntimeValue,
}

/// A module instance: the items it exports, by name.
pub struct ModuleInstance {
    exports: StringHashMap<ExternVal>,
}

impl View for ModuleInstance {
    type V = Map<Seq<char>, ExternVal>;

    closed spec fn view(&self) -> Map<Seq<char>, ExternVal> {
        self.exports@
    }
}

impl ModuleInstance {
    /// A module instance that exports exactly `exports`.
    pub fn with_exports(exports: StringHashMap<ExternVal>) -> (r: ModuleInstance)
        ensures
            r@ == exports@,
    {
        ModuleInstance { exports }
    }

    /// The item exported under `name`, if there is one.
    pub fn export_by_name(&self, name: &str) -> (r: Option<ExternVal>)
        ensures
            r == (if self@.contains_key(name@) {
                Some(self@[name@])
            } else {
                None
            }),
    {
        match self.exports.get(name) {
            Some(v) => Some(*v),
            None => None,
        }
    }
}

/// Why the store refuses limits, if it does.
pub open spec fn limits_fault(limits: ResizableLimits) -> Option<Error> {
    match limits.maximum {
        Some(maximum) if maximum < limits.initial => Some(
            Error::InvalidLimits { initial: limits.initial, maximum },
        ),
        _ => None,
    }
}

/// Why the store refuses to allocate a memory of this type, if it does: its
/// limits are inconsistent, or it asks for more pages than a linear memory can
/// have.
pub open spec fn memory_fault(memory_type: MemoryType) -> Option<Error> {
    let limits = memory_type.limits;
    if limits_fault(limits) is Some {
        limits_fault(limits)
    } else {
        match limits.maximum {
            Some(maximum) if maximum > LINEAR_MEMORY_MAX_PAGES => Some(
                Error::MemoryTooLarge { pages: maximum },
            ),
            _ => if limits.initial > LINEAR_MEMORY_MAX_PAGES {
                Some(Error::MemoryTooLarge { pages: limits.initial })
            } else {
                None
            },
        }
    }
}

/// Why the store refuses to allocate a table of this type, if it does: its
/// limits are inconsistent.
pub open spec fn table_fault(table_type: TableType) -> Option<Error> {
    limits_fault(table_type.limits)
}

/// What a store holds, item by item in the order of allocation.
#[verifier::reject_recursive_types(St)]
pub struct StoreView<St> {
    pub func_types: Seq<Signature>,
    pub funcs: Seq<FuncInstance<St>>,
    pub globals: Seq<GlobalInstance>,
    pub memories: Seq<MemoryType>,
    pub tables: Seq<TableType>,
    pub modules: Seq<Map<Seq<char>, ExternVal>>,
}

impl<St> StoreView<St> {
    /// The store that holds nothing.
    pub open spec fn empty() -> StoreView<St> {
        StoreView {
            func_types: Seq::empty(),
            funcs: Seq::empty(),
            globals: Seq::empty(),
            memories: Seq::empty(),
            tables: Seq::empty(),
            modules: Seq::empty(),
        }
    }

    /// This store after one more function type is allocated.
    pub open spec fn with_func_type(self, signature: Signature) -> StoreView<St> {
        StoreView { func_types: self.func_types.push(signature), ..self }
    }

    /// This store after one more function is allocated.
    pub open spec fn with_func(self, func: FuncInstance<St>) -> StoreView<St> {
        StoreView { funcs: self.funcs.push(func), ..self }
    }

    /// This store after one more global is allocated.
    pub open spec fn with_global(self, global: GlobalInstance) -> StoreView<St> {
        StoreView { globals: self.globals.push(global), ..self }
    }

    /// This store after one more memory is allocated.
    pub open spec fn with_memory(self, memory_type: MemoryType) -> StoreView<St> {
        StoreView { memories: self.memories.push(memory_type), ..self }
    }

    /// This store after one more table is allocated.
    pub open spec fn with_table(self, table_type: TableType) -> StoreView<St> {
        StoreView { tables: self.tables.push(table_type), ..self }
    }

    /// This store after one more module instance is registered.
    pub open spec fn with_module(self, exports: Map<Seq<char>, ExternVal>) -> StoreView<St> {
        StoreView { modules: self.modules.push(exports), ..self }
    }

    /// Every function of the store is registered under the signature that
    /// its callable goes by.
    pub open spec fn well_typed(self) -> bool {
        forall|f: int|
            0 <= f < self.funcs.len() ==> {
                let t = (#[trigger] self.funcs[f]).type_id.0 as int;
                t < self.func_types.len() && self.func_types[t]
                    == self.funcs[f].host_func.signature()
            }
    }

    /// No kind of item has more instances than an identifier can count.
    pub open spec fn fits(self) -> bool {
        &&& self.func_types.len() <= usize::MAX
        &&& self.funcs.len() <= usize::MAX
        &&& self.globals.len() <= usize::MAX
        &&& self.memories.len() <= usize::MAX
        &&& self.tables.len() <= usize::MAX
        &&& self.modules.len() <= usize::MAX
    }

    /// Everything that `self` holds, `later` holds too, under the same
    /// identifier.
    pub open spec fn is_prefix_of(self, later: StoreView<St>) -> bool {
        &&& self.func_types.is_prefix_of(later.func_types)
        &&& self.funcs.is_prefix_of(later.funcs)
        &&& self.globals.is_prefix_of(later.globals)
        &&& self.memories.is_prefix_of(later.memories)
        &&& self.tables.is_prefix_of(later.tables)
        &&& self.modules.is_prefix_of(later.modules)
    }
}

/// The allocation authority for one kind of host state, `St`.
#[verifier::reject_recursive_types(St)]
pub struct Store<St> {
    func_types: Vec<FunctionType>,
    funcs: Vec<FuncInstance<St>>,
    globals: Vec<GlobalInstance>,
    memories: Vec<MemoryType>,
    tables: Vec<TableType>,
    modules: Vec<ModuleInstance>,
}

impl<St> View for Store<St> {
    type V = StoreView<St>;

    closed spec fn view(&self) -> StoreView<St> {
        StoreView {
            func_types: self.func_types@.map_values(|t: FunctionType| t@),
            funcs: self.funcs@,
            globals: self.globals@,
            memories: self.memories@,
            tables: self.tables@,
            modules: self.modules@.map_values(|m: ModuleInstance| m@),
        }
    }
}

impl<St> Store<St> {
    /// A store never holds more items of a kind than an identifier can
    /// count.
    pub proof fn lemma_fits(&self)
        ensures
            self@.fits(),
    {
        assert(self.func_types@.len() == self.func_types.len());
        assert(self.funcs@.len() == self.funcs.len());
        assert(self.globals@.len() == self.globals.len());
        assert(self.memories@.len() == self.memories.len());
        assert(self.tables@.len() == self.tables.len());
        assert(self.modules@.len() == self.modules.len());
    }

    /// A store that holds nothing.
    pub fn new() -> (r: Store<St>)
        ensures
            r@ == StoreView::<St>::empty(),
    {
        let r = Store {
            func_types: Vec::new(),
            funcs: Vec::new(),
            globals: Vec::new(),
            memories: Vec::new(),
            tables: Vec::new(),
            modules: Vec::new(),
        };
        assert(r@.func_types =~= Seq::empty());
        assert(r@.modules =~= Seq::empty());
        r
    }

    /// The function type that `id` stands for, if this store allocated it.
    pub fn func_type(&self, id: TypeId) -> (r: Option<&FunctionType>)
        ensures
            match r {
                Some(t) => id.0 < self@.func_types.len() && t@ == self@.func_types[id.0 as int],
                None => id.0 >= self@.func_types.len(),
            },
    {
        if id.0 < self.func_types.len() {
            Some(&self.func_types[id.0])
        } else {
            None
        }
    }

    /// The function that `id` stands for, if this store allocated it.
    pub fn func(&self, id: FuncId) -> (r: Option<&FuncInstance<St>>)
        ensures
            match r {
                Some(f) => id.0 < self@.funcs.len() && *f == self@.funcs[id.0 as int],
                None => id.0 >= self@.funcs.len(),
            },
    {
        if id.0 < self.funcs.len() {
            Some(&self.funcs[id.0])
        } else {
            None
        }
    }

    /// The global that `id` stands for, if this store allocated it.
    pub fn global(&self, id: GlobalId) -> (r: Option<GlobalInstance>)
        ensures
            r == (if id.0 < self@.globals.len() {
                Some(self@.globals[id.0 as int])
            } else {
                None
            }),
    {
        if id.0 < self.globals.len() {
            Some(self.globals[id.0])
        } else {
            None
        }
    }

    /// The type of the memory that `id` stands for, if this store allocated
    /// it.
    pub fn memory(&self, id: MemoryId) -> (r: Option<MemoryType>)
        ensures
            r == (if id.0 < self@.memories.len() {
                Some(self@.memories[id.0 as int])
            } else {
                None
            }),
    {
        if id.0 < self.memories.len() {
            Some(self.memories[id.0])
        } else {
            None
        }
    }

    /// The type of the table that `id` stands for, if this store allocated
    /// it.
    pub fn table(&self, id: TableId) -> (r: Option<TableType>)
        ensures
            r == (if id.0 < self@.tables.len() {
                Some(self@.tables[id.0 as int])
            } else {
                None
            }),
    {
        if id.0 < self.tables.len() {
            Some(self.tables[id.0])
        } else {
            None
        }
    }

    /// The module instance that `id` stands for, if this store registered
    /// it.
    pub fn module(&self, id: ModuleId) -> (r: Option<&ModuleInstance>)
        ensures
            match r {
                Some(m) => id.0 < self@.modules.len() && m@ == self@.modules[id.0 as int],
                None => id.0 >= self@.modules.len(),
            },
    {
        if id.0 < self.modules.len() {
            Some(&self.modules[id.0])
        } else {
            None
        }
    }

    /// Allocates a function type and returns its identifier.
    pub fn alloc_func_type(&mut self, func_type: FunctionType) -> (id: TypeId)
        ensures
            id.0 == old(self)@.func_types.len(),
            final(self)@ == old(self)@.with_func_type(func_type@),
    {
        let id = TypeId(self.func_types.len());
        self.func_types.push(func_type);
        assert(self@.func_types =~= old(self)@.func_types.push(func_type@));
        id
    }

    /// Allocates a function of type `type_id` backed by `host_func` and
    /// returns its identifier.
    pub fn alloc_host_func(&mut self, type_id: TypeId, host_func: SharedFunc<St>) -> (id: FuncId)
        ensures
            id.0 == old(self)@.funcs.len(),
            final(self)@ == old(self)@.with_func(FuncInstance { type_id, host_func }),
    {
        let id = FuncId(self.funcs.len());
        self.funcs.push(FuncInstance { type_id, host_func });
        id
    }

    /// Allocates a global of type `global_type` that holds `init_val` and
    /// returns its identifier. Whether the value fits the type is not checked.
    pub fn alloc_global(&mut self, global_type: GlobalType, init_val: RuntimeValue) -> (id:
        GlobalId)
        ensures
            id.0 == old(self)@.globals.len(),
            final(self)@ == old(self)@.with_global(GlobalInstance { global_type, value: init_val }),
    {
        let id = GlobalId(self.globals.len());
        self.globals.push(GlobalInstance { global_type, value: init_val });
        id
    }

    /// Allocates a memory of type `memory_type` and returns its identifier,
    /// or refuses the descriptor and leaves the store as it was.
    pub fn alloc_memory(&mut self, memory_type: &MemoryType) -> (r: Result<MemoryId, Error>)
        ensures
            match memory_fault(*memory_type) {
                Some(e) => r == Err::<MemoryId, Error>(e) && final(self)@ == old(self)@,
                None => r matches Ok(id) && id.0 == old(self)@.memories.len() && final(self)@
                    == old(self)@.with_memory(*memory_type),
            },
    {
        let limits = memory_type.limits;
        check_limits(&limits)?;
        if let Some(maximum) = limits.maximum {
            if maximum > LINEAR_MEMORY_MAX_PAGES {
                return Err(Error::MemoryTooLarge { pages: maximum });
            }
        }
        if limits.initial > LINEAR_MEMORY_MAX_PAGES {
            return Err(Error::MemoryTooLarge { pages: limits.initial });
        }
        let id = MemoryId(self.memories.len());
        self.memories.push(*memory_type);
        Ok(id)
    }

    /// Allocates a table of type `table_type` and returns its identifier, or
    /// refuses the descriptor and leaves the store as it was.
    pub fn alloc_table(&mut self, table_type: &TableType) -> (r: Result<TableId, Error>)
        ensures
            match table_fault(*table_type) {
                Some(e) => r == Err::<TableId, Error>(e) && final(self)@ == old(self)@,
                None => r matches Ok(id) && id.0 == old(self)@.tables.len() && final(self)@
                    == old(self)@.with_table(*table_type),
            },
    {
        check_limits(&table_type.limits)?;
        let id = TableId(self.tables.len());
        self.tables.push(*table_type);
        Ok(id)
    }

    /// Registers a module instance and returns its identifier.
    pub fn add_module_instance(&mut self, instance: ModuleInstance) -> (id: ModuleId)
        ensures
            id.0 == old(self)@.modules.len(),
            final(self)@ == old(self)@.with_module(instance@),
    {
        let id = ModuleId(self.modules.len());
        self.modules.push(instance);
        assert(self@.modules =~= old(self)@.modules.push(instance@));
        id
    }
}

/// Tells whether the store accepts `limits`.
pub fn check_limits(limits: &ResizableLimits) -> (r: Result<(), Error>)
    ensures
        r == (match limits_fault(*limits) {
            Some(e) => Err::<(), Error>(e),
            None => Ok::<(), Error>(()),
        }),
{
    if let Some(maximum) = limits.maximum {
        if maximum < limits.initial {
            return Err(Error::InvalidLimits { initial: limits.initial, maximum });
        }
    }
    Ok(())
}

} // verus!
