//! Verified core of a small Rust surface over the oneAPI Unified Runtime
//! and over a C shim around SYCL.
//!
//! The library keeps the decisions of the runtime wrappers: translating
//! result codes, checking copy and allocation sizes, choosing devices,
//! deciding which runtime call comes next while devices are discovered and
//! contexts are created, and which handles must be released on each path.
//! Handles are plain integers here; the calls into the native runtime are
//! made by the program around the library, which reports each outcome back.
#![allow(non_camel_case_types)]

pub mod bindings;
pub mod legacy;
pub mod oneapi_helper;
pub mod paths;
pub mod sycl;
pub mod text;
pub mod unified_runtime;
