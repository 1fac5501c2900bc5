//! Host bindings for a WebAssembly interpreter: typed native closures, globals,
//! memories and tables, declared under export names and registered in a store.
//!
//! A host declares what it offers on a [`host::HostModuleBuilder`], seals the
//! declarations into a [`host::HostModule`], and registers the module in a
//! [`store::Store`]. The store hands back a module instance that exports each
//! item under its name. A function is a native closure over the host state;
//! the interpreter calls it through [`func::AnyFunc`], with tagged values for
//! arguments.
//!
//! ```
//! use wasm_host::error::Error;
//! use wasm_host::func::AnyFunc;
//! use wasm_host::host::HostModuleBuilder;
//! use wasm_host::store::{FuncId, Store};
//! use wasm_host::value::RuntimeValue;
//!
//! struct Host {
//!     calls: u32,
//! }
//!
//! let mut builder = HostModuleBuilder::<Host>::new();
//! builder.with_func1("double", |host: &mut Host, x: i32| -> Result<Option<i32>, Error> {
//!     host.calls += 1;
//!     Ok(Some(x.wrapping_mul(2)))
//! });
//! let mut store = Store::new();
//! let module = builder.build().allocate(&mut store).unwrap();
//! assert!(store.module(module).unwrap().export_by_name("double").is_some());
//!
//! let mut host = Host { calls: 0 };
//! let double = &store.func(FuncId(0)).unwrap().host_func;
//! let result = double.call_as_any(&mut host, &[RuntimeValue::I32(21)]);
//! assert_eq!(result, Ok(Some(RuntimeValue::I32(42))));
//! ```

pub mod elements;
pub mod error;
pub mod func;
pub mod host;
pub mod store;
pub mod value;
