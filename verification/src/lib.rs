//! Core of a WebAssembly runtime: control-flow block typing against a
//! module's function-type table, and the object model that links and
//! instantiates compiled modules (engine, store, linker, instance).
//!
//! The bytecode dispatch loop and the binary parser live outside this
//! crate; this crate owns the typing rules, the linking protocol and the
//! runtime object graph, and states each operation's behaviour as a
//! verified contract.

pub mod block_type;
pub mod linker;
pub mod module;
pub mod registry;
pub mod store;
pub mod types;
