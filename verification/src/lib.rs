//! Core of a host document tree exposed to an embedded scripting runtime
//! with a tracing garbage collector: explicit rooting and unrooting of the
//! tree's root object, one-proxy-per-entity wrapper identity, and the
//! preorder query engine behind element lookup.
//!
//! The scripting runtime itself is modelled, not bound: [`runtime::Runtime`]
//! stands for the runtime heap (an allocator of object handles) together
//! with its garbage-collector root set, so that the pairing of
//! register-root / unregister-root calls and the stability of cached
//! wrapper handles are stated and checked as contracts.

pub mod bindings;
pub mod collection;
pub mod document;
pub mod query;
pub mod runtime;
pub mod tree;
pub mod window;
pub mod wrapper;
