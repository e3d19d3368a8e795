//! A verified orchestration layer over a Sierra-to-CASM compilation backend.
//!
//! The crate loads a versioned Sierra program from its textual form, validates
//! it by building the backend's program registry, derives ap-change metadata,
//! invokes code generation, and renders the JSON summaries and assembly text
//! that callers write out.  The backend's own algorithms are reached through a
//! small set of trusted bindings; everything around them - version gating,
//! error taxonomy and context chaining, summary rendering - is verified.

pub mod backend;
pub mod error;
pub mod pipeline;
pub mod report;
pub mod text;
