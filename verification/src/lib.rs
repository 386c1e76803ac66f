//! Resource-management core of a real-time rendering engine.
//!
//! Declarative, file-based descriptions of GPU pipelines, binding layouts,
//! shaders and 3-D scene buffers are turned into typed resource descriptors,
//! each created at most once and referenced thereafter through a compact,
//! kind-tagged 64-bit handle.

pub mod api;
pub mod bindings;
pub mod buffer;
pub mod descriptors;
pub mod errors;
pub mod handle;
pub mod json;
pub mod model;
pub mod paths;
pub mod shader;
