//! Type descriptors of the items a module can export.

use vstd::prelude::*;

verus! {

/// The largest number of pages a linear memory can have.
pub const LINEAR_MEMORY_MAX_PAGES: u32 = 65536;

/// The shape of a value at the WebAssembly boundary.
#[derive(Clone, Copy, Debug, PartialEq, Eq, Structural)]
pub enum ValueType {
    /// 32-bit integer.
    I32,
    /// 64-bit integer.
    I64,
    /// 32-bit float.
    F32,
    /// 64-bit float.
    F64,
}

/// What a function looks like from WebAssembly: the types of its parameters,
/// in order, and the type of its result, if it has one.
pub struct Signature {
    pub params: Seq<ValueType>,
    pub return_type: Option<ValueType>,
}

/// The executable form of a [`Signature`].
#[derive(Debug, PartialEq, Eq)]
pub struct FunctionType {
    pub params: Vec<ValueType>,
    pub return_type: Option<ValueType>,
}

impl View for FunctionType {
    type V = Signature;

    open spec fn view(&self) -> Signature {
        Signature { params: self.params@, return_type: self.return_type }
    }
}

impl Clone for FunctionType {
    fn clone(&self) -> (r: FunctionType)
        ensures
            r@ == self@,
    {
        let params = self.params.clone();
        FunctionType { params, return_type: self.return_type }
    }
}

impl FunctionType {
    /// A function type with the given parameter types and result type.
    pub fn new(params: Vec<ValueType>, return_type: Option<ValueType>) -> (r: FunctionType)
        ensures
            r@ == (Signature { params: params@, return_type }),
    {
        FunctionType { params, return_type }
    }
}

/// The type of a global: the type of its content and whether it can change.
#[derive(Clone, Copy, Debug, PartialEq, Eq, Structural)]
pub struct GlobalType {
    pub content_type: ValueType,
    pub is_mutable: bool,
}

impl GlobalType {
    /// A global type with the given content type and mutability.
    pub fn new(content_type: ValueType, is_mutable: bool) -> (r: GlobalType)
        ensures
            r == (GlobalType { content_type, is_mutable }),
    {
        GlobalType { content_type, is_mutable }
    }
}

/// The size bounds of a memory, in pages, or of a table, in elements.
#[derive(Clone, Copy, Debug, PartialEq, Eq, Structural)]
pub struct ResizableLimits {
    pub initial: u32,
    pub maximum: Option<u32>,
}

impl ResizableLimits {
    /// Limits with the given initial size and optional maximum.
    pub fn new(initial: u32, maximum: Option<u32>) -> (r: ResizableLimits)
        ensures
            r == (ResizableLimits { initial, maximum }),
    {
        ResizableLimits { initial, maximum }
    }
}

/// The descriptor of a linear memory.
#[derive(Clone, Copy, Debug, PartialEq, Eq, Structural)]
pub struct MemoryType {
    pub limits: ResizableLimits,
}

impl MemoryType {
    /// A memory of `min` pages that may grow up to `max` pages.
    pub fn new(min: u32, max: Option<u32>) -> (r: MemoryType)
        ensures
            r == (MemoryType { limits: ResizableLimits { initial: min, maximum: max } }),
    {
        MemoryType { limits: ResizableLimits::new(min, max) }
    }
}

/// What the elements of a table are.
#[derive(Clone, Copy, Debug, PartialEq, Eq, Structural)]
pub enum TableElementType {
    /// References to functions of any signature.
    AnyFunc,
}

/// The descriptor of a table.
#[derive(Clone, Copy, Debug, PartialEq, Eq, Structural)]
pub struct TableType {
    pub elem_type: TableElementType,
    pub limits: ResizableLimits,
}

impl TableType {
    /// A table of `min` function references that may grow up to `max`.
    pub fn new(min: u32, max: Option<u32>) -> (r: TableType)
        ensures
            r == (TableType {
                elem_type: TableElementType::AnyFunc,
                limits: ResizableLimits { initial: min, maximum: max },
            }),
    {
        TableType { elem_type: TableElementType::AnyFunc, limits: ResizableLimits::new(min, max) }
    }
}

} // verus!
