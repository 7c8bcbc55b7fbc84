//! Build-time front end for a resource-conflict-aware scheduler: it reads the
//! declared parameter list of an annotated procedure ("system"), classifies
//! each parameter as a shared resource, an exclusive resource, or one of two
//! injected runtime handles, and synthesizes the source text of a zero-argument
//! factory function that registers the system with a scheduler builder.
//!
//! The whole transform is pure: parsing the procedure into the model of
//! [`model`] and emitting tokens from the rendered text are left to the caller.

pub mod classify;
pub mod laws;
pub mod model;
pub mod render;
pub mod synth;
