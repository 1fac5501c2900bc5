//! Host modules: native closures, globals, memories and tables, declared
//! under export names, sealed, and registered in a store.

use vstd::prelude::*;
use vstd::hash_map::StringHashMap;
use std::sync::Arc;
use crate::elements::{FunctionType, GlobalType, MemoryType, Signature, TableType};
use crate::error::Error;
use crate::func::{
    outcome0,
    outcome1,
    outcome2,
    signature0,
    signature1,
    signature2,
    AnyFunc,
    AsReturnVal,
    FromArg,
    Func0,
    Func1,
    Func2,
};
use crate::store::{
    memory_fault,
    table_fault,
    ExternVal,
    FuncId,
    FuncInstance,
    GlobalId,
    GlobalInstance,
    MemoryId,
    ModuleId,
    ModuleInstance,
    SharedFunc,
    Store,
    StoreView,
    TableId,
    TypeId,
};
use crate::value::RuntimeValue;

verus! {

/// One declaration of a host module, waiting to be registered.
#[verifier::reject_recursive_types(St)]
enum HostItem<St> {
    Func { name: String, func_type: FunctionType, host_func: SharedFunc<St> },
    Global { name: String, global_type: GlobalType, init_val: RuntimeValue },
    Memory { name: String, memory_type: MemoryType },
    Table { name: String, table_type: TableType },
}

/// What one declaration of a host module says: the export name and what is
/// to be allocated under it.
#[verifier::reject_recursive_types(St)]
pub enum HostItemView<St> {
    Func { name: Seq<char>, signature: Signature, host_func: SharedFunc<St> },
    Global { name: Seq<char>, global_type: GlobalType, init_val: RuntimeValue },
    Memory { name: Seq<char>, memory_type: MemoryType },
    Table { name: Seq<char>, table_type: TableType },
}

impl<St> HostItemView<St> {
    /// The name that the item is exported under.
    pub open spec fn name(self) -> Seq<char> {
        match self {
            HostItemView::Func { name, .. } => name,
            HostItemView::Global { name, .. } => name,
            HostItemView::Memory { name, .. } => name,
            HostItemView::Table { name, .. } => name,
        }
    }

    /// A function is declared under the signature that its callable goes
    /// by. The other kinds of item have nothing that could disagree.
    pub open spec fn is_consistent(self) -> bool {
        self matches HostItemView::Func { signature, host_func, .. } ==> host_func.signature()
            == signature
    }
}

/// Every function among `items` is declared under the signature that its
/// callable goes by.
pub open spec fn consistent<St>(items: Seq<HostItemView<St>>) -> bool {
    forall|i: int| 0 <= i < items.len() ==> (#[trigger] items[i]).is_consistent()
}

impl<St> View for HostItem<St> {
    type V = HostItemView<St>;

    closed spec fn view(&self) -> HostItemView<St> {
        match self {
            HostItem::Func { name, func_type, host_func } => HostItemView::Func {
                name: name@,
                signature: func_type@,
                host_func: *host_func,
            },
            HostItem::Global { name, global_type, init_val } => HostItemView::Global {
                name: name@,
                global_type: *global_type,
                init_val: *init_val,
            },
            HostItem::Memory { name, memory_type } => HostItemView::Memory {
                name: name@,
                memory_type: *memory_type,
            },
            HostItem::Table { name, table_type } => HostItemView::Table {
                name: name@,
                table_type: *table_type,
            },
        }
    }
}

/// `host_func` is the closure `f`, which has no parameter, behind the uniform
/// calling convention: it goes by the signature that follows from the native
/// types of `f`, and it returns what `f` returns, packed.
pub open spec fn wraps0<Cl: Fn(&mut St) -> Result<Option<Ret>, Error>, St, Ret: AsReturnVal>(
    host_func: SharedFunc<St>,
    f: Cl,
) -> bool {
    &&& host_func.signature() == signature0::<Ret>()
    &&& forall|s: &mut St, args: Seq<RuntimeValue>, r: Result<Option<RuntimeValue>, Error>|
        #[trigger] host_func.outcome(s, args, r) <==> outcome0(f, s, r)
}

/// `host_func` is the closure `f` of one parameter behind the uniform calling
/// convention: it goes by the signature that follows from the native types of
/// `f`, and it returns what `f` returns on the unpacked argument, packed.
pub open spec fn wraps1<
    Cl: Fn(&mut St, A1) -> Result<Option<Ret>, Error>,
    St,
    Ret: AsReturnVal,
    A1: FromArg,
>(host_func: SharedFunc<St>, f: Cl) -> bool {
    &&& host_func.signature() == signature1::<Ret, A1>()
    &&& forall|s: &mut St, args: Seq<RuntimeValue>, r: Result<Option<RuntimeValue>, Error>|
        #[trigger] host_func.outcome(s, args, r) <==> outcome1(f, s, args, r)
}

/// `host_func` is the closure `f` of two parameters behind the uniform
/// calling convention: it goes by the signature that follows from the native
/// types of `f`, and it returns what `f` returns on the unpacked arguments,
/// packed.
pub open spec fn wraps2<
    Cl: Fn(&mut St, A1, A2) -> Result<Option<Ret>, Error>,
    St,
    Ret: AsReturnVal,
    A1: FromArg,
    A2: FromArg,
>(host_func: SharedFunc<St>, f: Cl) -> bool {
    &&& host_func.signature() == signature2::<Ret, A1, A2>()
    &&& forall|s: &mut St, args: Seq<RuntimeValue>, r: Result<Option<RuntimeValue>, Error>|
        #[trigger] host_func.outcome(s, args, r) <==> outcome2(f, s, args, r)
}

/// Collects the declarations of one host module over the host state `St`.
#[verifier::reject_recursive_types(St)]
pub struct HostModuleBuilder<St> {
    items: Vec<HostItem<St>>,
}

impl<St> View for HostModuleBuilder<St> {
    type V = Seq<HostItemView<St>>;

    closed spec fn view(&self) -> Seq<HostItemView<St>> {
        self.items@.map_values(|item: HostItem<St>| item@)
    }
}

impl<St> HostModuleBuilder<St> {
    /// Signature and callable of a function are declared together and stay
    /// together.
    #[verifier::type_invariant]
    spec fn items_consistent(self) -> bool {
        consistent(self@)
    }

    /// Appends one declaration.
    fn push_item(&mut self, item: HostItem<St>)
        requires
            item@.is_consistent(),
        ensures
            final(self)@ == old(self)@.push(item@),
    {
        proof {
            use_type_invariant(&*self);
        }
        let mut items = Vec::new();
        std::mem::swap(&mut self.items, &mut items);
        items.push(item);
        assert(items@.map_values(|item: HostItem<St>| item@) =~= old(self)@.push(item@));
        self.items = items;
    }
}

impl<St: 'static> HostModuleBuilder<St> {
    /// A builder without declarations.
    pub fn new() -> (r: Self)
        ensures
            r@ == Seq::<HostItemView<St>>::empty(),
    {
        HostModuleBuilder { items: Vec::new() }
    }

    /// Declares a function without parameters under `name`, backed by the
    /// closure `f`. Its signature follows from the native types of `f`.
    pub fn with_func0<
        Cl: Fn(&mut St) -> Result<Option<Ret>, Error> + 'static,
        Ret: AsReturnVal + 'static,
    >(&mut self, name: &str, f: Cl)
        requires
            forall|s: &mut St| call_requires(f, (s,)),
        ensures
            exists|host_func: SharedFunc<St>|
                wraps0::<Cl, St, Ret>(host_func, f) && final(self)@
                    == #[trigger] old(self)@.push(
                    HostItemView::Func {
                        name: name@,
                        signature: signature0::<Ret>(),
                        host_func,
                    },
                ),
    {
        let func_type = Func0::<Cl, St, Ret>::derive_func_type();
        let func = Func0::<Cl, St, Ret>::new(f);
        let erased: Box<dyn AnyFunc<St>> = Box::new(func);
        let host_func = Arc::new(erased);
        let item = HostItem::Func { name: name.to_owned(), func_type, host_func };
        self.push_item(item);
    }

    /// Declares a function of one parameter under `name`, backed by the
    /// closure `f`. Its signature follows from the native types of `f`.
    pub fn with_func1<
        Cl: Fn(&mut St, A1) -> Result<Option<Ret>, Error> + 'static,
        Ret: AsReturnVal + 'static,
        A1: FromArg + 'static,
    >(&mut self, name: &str, f: Cl)
        requires
            forall|s: &mut St, a1: A1| call_requires(f, (s, a1)),
        ensures
            exists|host_func: SharedFunc<St>|
                wraps1::<Cl, St, Ret, A1>(host_func, f) && final(self)@
                    == #[trigger] old(self)@.push(
                    HostItemView::Func {
                        name: name@,
                        signature: signature1::<Ret, A1>(),
                        host_func,
                    },
                ),
    {
        let func_type = Func1::<Cl, St, Ret, A1>::derive_func_type();
        let func = Func1::<Cl, St, Ret, A1>::new(f);
        let erased: Box<dyn AnyFunc<St>> = Box::new(func);
        let host_func = Arc::new(erased);
        let item = HostItem::Func { name: name.to_owned(), func_type, host_func };
        self.push_item(item);
    }

    /// Declares a function of two parameters under `name`, backed by the
    /// closure `f`. Its signature follows from the native types of `f`.
    pub fn with_func2<
        Cl: Fn(&mut St, A1, A2) -> Result<Option<Ret>, Error> + 'static,
        Ret: AsReturnVal + 'static,
        A1: FromArg + 'static,
        A2: FromArg + 'static,
    >(&mut self, name: &str, f: Cl)
        requires
            forall|s: &mut St, a1: A1, a2: A2| call_requires(f, (s, a1, a2)),
        ensures
            exists|host_func: SharedFunc<St>|
                wraps2::<Cl, St, Ret, A1, A2>(host_func, f) && final(self)@
                    == #[trigger] old(self)@.push(
                    HostItemView::Func {
                        name: name@,
                        signature: signature2::<Ret, A1, A2>(),
                        host_func,
                    },
                ),
    {
        let func_type = Func2::<Cl, St, Ret, A1, A2>::derive_func_type();
        let func = Func2::<Cl, St, Ret, A1, A2>::new(f);
        let erased: Box<dyn AnyFunc<St>> = Box::new(func);
        let host_func = Arc::new(erased);
        let item = HostItem::Func { name: name.to_owned(), func_type, host_func };
        self.push_item(item);
    }

    /// Declares a global of type `global_type` under `name`, which starts
    /// out as `init_val`. Whether the value fits the type is not checked.
    pub fn with_global(&mut self, name: &str, global_type: GlobalType, init_val: RuntimeValue)
        ensures
            final(self)@ == old(self)@.push(
                HostItemView::Global { name: name@, global_type, init_val },
            ),
    {
        let item = HostItem::Global { name: name.to_owned(), global_type, init_val };
        self.push_item(item);
    }

    /// Declares a memory of type `memory_type` under `name`. Whether the
    /// descriptor is valid shows at registration.
    pub fn with_memory(&mut self, name: &str, memory_type: MemoryType)
        ensures
            final(self)@ == old(self)@.push(HostItemView::Memory { name: name@, memory_type }),
    {
        let item = HostItem::Memory { name: name.to_owned(), memory_type };
        self.push_item(item);
    }

    /// Declares a table of type `table_type` under `name`. Whether the
    /// descriptor is valid shows at registration.
    pub fn with_table(&mut self, name: &str, table_type: TableType)
        ensures
            final(self)@ == old(self)@.push(HostItemView::Table { name: name@, table_type }),
    {
        let item = HostItem::Table { name: name.to_owned(), table_type };
        self.push_item(item);
    }

    /// Seals the module: what was declared so far, in that order, and
    /// nothing more.
    pub fn build(self) -> (r: HostModule<St>)
        ensures
            r@ == self@,
            consistent(r@),
    {
        proof {
            use_type_invariant(&self);
        }
        HostModule { items: self.items }
    }
}

/// A sealed host module: its declarations, in the order they were made.
#[verifier::reject_recursive_types(St)]
pub struct HostModule<St> {
    items: Vec<HostItem<St>>,
}

impl<St> View for HostModule<St> {
    type V = Seq<HostItemView<St>>;

    closed spec fn view(&self) -> Seq<HostItemView<St>> {
        self.items@.map_values(|item: HostItem<St>| item@)
    }
}

impl<St> HostModule<St> {
    /// Signature and callable of a function were declared together and stay
    /// together.
    #[verifier::type_invariant]
    spec fn items_consistent(self) -> bool {
        consistent(self@)
    }
}

/// How far a registration has come: the store as it stands, the exports
/// collected so far, and the failure that stopped it, if one did.
#[verifier::reject_recursive_types(St)]
pub struct Registration<St> {
    pub store: StoreView<St>,
    pub exports: Map<Seq<char>, ExternVal>,
    pub error: Option<Error>,
}

/// What `item` is exported as when it is allocated in `store`: the
/// identifier is the next free one of its kind.
pub open spec fn export_of<St>(store: StoreView<St>, item: HostItemView<St>) -> ExternVal {
    match item {
        HostItemView::Func { .. } => ExternVal::Func(FuncId(store.funcs.len() as usize)),
        HostItemView::Global { .. } => ExternVal::Global(GlobalId(store.globals.len() as usize)),
        HostItemView::Memory { .. } => ExternVal::Memory(MemoryId(store.memories.len() as usize)),
        HostItemView::Table { .. } => ExternVal::Table(TableId(store.tables.len() as usize)),
    }
}

/// Why the store refuses `item`, if it does. Functions and globals are never
/// refused.
pub open spec fn item_fault<St>(item: HostItemView<St>) -> Option<Error> {
    match item {
        HostItemView::Memory { memory_type, .. } => memory_fault(memory_type),
        HostItemView::Table { table_type, .. } => table_fault(table_type),
        _ => None,
    }
}

/// `store` after `item` is allocated in it.
pub open spec fn store_with_item<St>(store: StoreView<St>, item: HostItemView<St>) -> StoreView<
    St,
> {
    match item {
        HostItemView::Func { signature, host_func, .. } => store.with_func_type(
            signature,
        ).with_func(
            FuncInstance { type_id: TypeId(store.func_types.len() as usize), host_func },
        ),
        HostItemView::Global { global_type, init_val, .. } => store.with_global(
            GlobalInstance { global_type, value: init_val },
        ),
        HostItemView::Memory { memory_type, .. } => store.with_memory(memory_type),
        HostItemView::Table { table_type, .. } => store.with_table(table_type),
    }
}

/// One step of a registration. After a failure nothing more happens. An
/// item that the store refuses stops the registration with the store's
/// failure and changes nothing. Any other item is allocated and exported
/// under its name, in the place of an earlier export of that name.
pub open spec fn register_item<St>(reg: Registration<St>, item: HostItemView<St>) -> Registration<
    St,
> {
    if reg.error is Some {
        reg
    } else if item_fault(item) is Some {
        Registration { error: item_fault(item), ..reg }
    } else {
        Registration {
            store: store_with_item(reg.store, item),
            exports: reg.exports.insert(item.name(), export_of(reg.store, item)),
            error: None,
        }
    }
}

/// The registration of `items`, one after the other, in `store`.
pub open spec fn register_items<St>(
    store: StoreView<St>,
    items: Seq<HostItemView<St>>,
) -> Registration<St>
    decreases items.len(),
{
    if items.len() == 0 {
        Registration { store, exports: Map::empty(), error: None }
    } else {
        register_item(register_items(store, items.drop_last()), items.last())
    }
}

/// Once a registration has failed, further items change nothing.
pub proof fn lemma_failure_is_final<St>(
    store: StoreView<St>,
    items: Seq<HostItemView<St>>,
    k: int,
)
    requires
        0 <= k <= items.len(),
        register_items(store, items.take(k)).error is Some,
    ensures
        register_items(store, items) == register_items(store, items.take(k)),
    decreases items.len() - k,
{
    if k == items.len() {
        assert(items.take(k) =~= items);
    } else {
        assert(items.take(k + 1).drop_last() =~= items.take(k));
        lemma_failure_is_final(store, items, k + 1);
    }
}

/// A registration never takes anything out of the store: what the store
/// holds after the first `k` items, under whatever identifier, it still holds
/// under that identifier after all of them.
pub proof fn lemma_registration_extends<St>(
    store: StoreView<St>,
    items: Seq<HostItemView<St>>,
    k: int,
)
    requires
        0 <= k <= items.len(),
    ensures
        register_items(store, items.take(k)).store.is_prefix_of(
            register_items(store, items).store,
        ),
    decreases items.len(),
{
    if k == items.len() {
        assert(items.take(k) =~= items);
    } else {
        let earlier = items.drop_last();
        assert(earlier.take(k) =~= items.take(k));
        lemma_registration_extends(store, earlier, k);
    }
}

/// Every item that a registration allocated is in the store at the end of
/// it, where it was put, whatever came after it and whether or not the
/// registration went through.
pub proof fn lemma_registered_item_stays<St>(
    store: StoreView<St>,
    items: Seq<HostItemView<St>>,
    i: int,
)
    requires
        0 <= i < items.len(),
        register_items(store, items.take(i + 1)).error is None,
    ensures
        store_with_item(register_items(store, items.take(i)).store, items[i]).is_prefix_of(
            register_items(store, items).store,
        ),
{
    assert(items.take(i + 1).drop_last() =~= items.take(i));
    lemma_registration_extends(store, items, i + 1);
}

/// An item that the store refuses fails the whole registration with the
/// store's failure, and the store is left as the items before it made it:
/// nothing is rolled back, and nothing after the refused item is allocated.
pub proof fn lemma_refused_item_fails_registration<St>(
    store: StoreView<St>,
    items: Seq<HostItemView<St>>,
    k: int,
)
    requires
        0 <= k < items.len(),
        register_items(store, items.take(k)).error is None,
        item_fault(items[k]) is Some,
    ensures
        register_items(store, items).error == item_fault(items[k]),
        register_items(store, items).store == register_items(store, items.take(k)).store,
        store.is_prefix_of(register_items(store, items).store),
{
    assert(items.take(k + 1).drop_last() =~= items.take(k));
    lemma_failure_is_final(store, items, k + 1);
    assert(items.take(0) =~= Seq::empty());
    lemma_registration_extends(store, items, 0);
}

/// A memory whose minimum exceeds its maximum is such an item: it fails the
/// registration, and what was allocated before it stays allocated.
pub proof fn lemma_memory_with_minimum_above_maximum_fails<St>(
    store: StoreView<St>,
    items: Seq<HostItemView<St>>,
    k: int,
)
    requires
        0 <= k < items.len(),
        register_items(store, items.take(k)).error is None,
        items[k] matches HostItemView::Memory { memory_type, .. }
            && memory_type.limits.maximum matches Some(maximum) && memory_type.limits.initial
            > maximum,
    ensures
        items[k] matches HostItemView::Memory { memory_type, .. } && register_items(
            store,
            items,
        ).error == Some(
            Error::InvalidLimits {
                initial: memory_type.limits.initial,
                maximum: memory_type.limits.maximum->0,
            },
        ),
        register_items(store, items).store == register_items(store, items.take(k)).store,
        store.is_prefix_of(register_items(store, items).store),
{
    lemma_refused_item_fails_registration(store, items, k);
}

/// A registration of consistent items keeps the store well typed: every
/// function it allocates is registered under the function type that was
/// allocated for it, which is the signature of its callable.
pub proof fn lemma_registration_keeps_store_well_typed<St>(
    store: StoreView<St>,
    items: Seq<HostItemView<St>>,
)
    requires
        store.well_typed(),
        consistent(items),
        register_items(store, items).store.fits(),
    ensures
        register_items(store, items).store.well_typed(),
    decreases items.len(),
{
    if items.len() > 0 {
        let earlier = items.drop_last();
        assert(items.take(earlier.len() as int) =~= earlier);
        lemma_registration_extends(store, items, earlier.len() as int);
        assert(consistent(earlier)) by {
            assert forall|i: int| 0 <= i < earlier.len() implies (#[trigger] earlier[i])
                .is_consistent() by {
                assert(items[i].is_consistent());
            }
        }
        lemma_registration_keeps_store_well_typed(store, earlier);
        assert(items.last().is_consistent());
    }
}

/// In a registration that went through, each name is exported as the last
/// item declared under it: a later item of the same name takes the place of
/// an earlier one.
pub proof fn lemma_last_export_wins<St>(
    store: StoreView<St>,
    items: Seq<HostItemView<St>>,
    i: int,
)
    requires
        0 <= i < items.len(),
        register_items(store, items).error is None,
        forall|j: int| i < j < items.len() ==> items[j].name() != items[i].name(),
    ensures
        register_items(store, items).exports.contains_key(items[i].name()),
        register_items(store, items).exports[items[i].name()] == export_of(
            register_items(store, items.take(i)).store,
            items[i],
        ),
    decreases items.len(),
{
    let earlier = items.drop_last();
    if i == items.len() - 1 {
        assert(items.take(i) =~= earlier);
    } else {
        assert(earlier.take(i) =~= items.take(i));
        lemma_last_export_wins(store, earlier, i);
    }
}

/// In a registration that went through, the names exported are the names
/// declared, no more and no fewer.
pub proof fn lemma_exports_are_the_declared_names<St>(
    store: StoreView<St>,
    items: Seq<HostItemView<St>>,
    name: Seq<char>,
)
    requires
        register_items(store, items).error is None,
    ensures
        register_items(store, items).exports.contains_key(name) <==> exists|i: int|
            0 <= i < items.len() && #[trigger] items[i].name() == name,
    decreases items.len(),
{
    if items.len() > 0 {
        let earlier = items.drop_last();
        lemma_exports_are_the_declared_names(store, earlier, name);
        if register_items(store, earlier).exports.contains_key(name) {
            let i = choose|i: int| 0 <= i < earlier.len() && #[trigger] earlier[i].name() == name;
            assert(items[i].name() == name);
        }
        if exists|i: int| 0 <= i < items.len() && #[trigger] items[i].name() == name {
            let i = choose|i: int| 0 <= i < items.len() && #[trigger] items[i].name() == name;
            if i < items.len() - 1 {
                assert(earlier[i].name() == name);
            }
        }
    }
}

impl<St> HostModule<St> {
    /// Registers the module in `store`: allocates its items in order and
    /// adds a module instance that exports each under its name.
    ///
    /// The first item that the store refuses ends the registration with the
    /// store's failure. The items before it stay allocated.
    pub fn allocate(self, store: &mut Store<St>) -> (r: Result<ModuleId, Error>)
        ensures
            ({
                let reg = register_items(old(store)@, self@);
                match r {
                    Ok(id) => {
                        &&& reg.error is None
                        &&& id.0 == reg.store.modules.len()
                        &&& final(store)@ == reg.store.with_module(reg.exports)
                    },
                    Err(e) => reg.error == Some(e) && final(store)@ == reg.store,
                }
            }),
            old(store)@.well_typed() ==> final(store)@.well_typed(),
    {
        let mut exports: StringHashMap<ExternVal> = StringHashMap::new();
        let ghost items = self@;
        let ghost start = store@;
        proof {
            use_type_invariant(&self);
        }
        for item in it: self.items
            invariant
                start == old(store)@,
                items == self@,
                consistent(items),
                it.seq().map_values(|item: HostItem<St>| item@) == items,
                register_items(start, items.take(it.index())) == (Registration {
                    store: store@,
                    exports: exports@,
                    error: None,
                }),
        {
            proof {
                assert(items.take(it.index() + 1).drop_last() =~= items.take(it.index()));
            }
            match item {
                HostItem::Func { name, func_type, host_func } => {
                    let type_id = store.alloc_func_type(func_type);
                    let func_id = store.alloc_host_func(type_id, host_func);
                    exports.insert(name, ExternVal::Func(func_id));
                },
                HostItem::Global { name, global_type, init_val } => {
                    let global_id = store.alloc_global(global_type, init_val);
                    exports.insert(name, ExternVal::Global(global_id));
                },
                HostItem::Memory { name, memory_type } => {
                    match store.alloc_memory(&memory_type) {
                        Ok(memory_id) => {
                            exports.insert(name, ExternVal::Memory(memory_id));
                        },
                        Err(e) => {
                            proof {
                                lemma_failure_is_final(start, items, it.index() + 1);
                                store.lemma_fits();
                                if start.well_typed() {
                                    lemma_registration_keeps_store_well_typed(start, items);
                                }
                            }
                            return Err(e);
                        },
                    }
                },
                HostItem::Table { name, table_type } => {
                    match store.alloc_table(&table_type) {
                        Ok(table_id) => {
                            exports.insert(name, ExternVal::Table(table_id));
                        },
                        Err(e) => {
                            proof {
                                lemma_failure_is_final(start, items, it.index() + 1);
                                store.lemma_fits();
                                if start.well_typed() {
                                    lemma_registration_keeps_store_well_typed(start, items);
                                }
                            }
                            return Err(e);
                        },
                    }
                },
            }
        }
        proof {
            assert(items.take(items.len() as int) =~= items);
            store.lemma_fits();
            if start.well_typed() {
                lemma_registration_keeps_store_well_typed(start, items);
            }
        }
        let host_module_instance = ModuleInstance::with_exports(exports);
        let module_id = store.add_module_instance(host_module_instance);
        Ok(module_id)
    }
}

} // verus!
