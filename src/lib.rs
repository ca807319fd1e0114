//! Shallow `Debug` implementations for user-defined types.
//!
//! Given the declared shape of a struct, enum or union, this library emits the
//! source text of an `impl std::fmt::Debug` that prints only the type's name
//! and, for enums, the active variant's name. Field values are never printed,
//! so they need not implement `Debug` themselves.

pub mod emit;
pub mod laws;
mod model;

pub use emit::derive_shallow_debug;
pub use model::{DeclView, ParamView, ShapeView, VariantView};
pub use model::{FieldKind, GenericParam, Shape, TypeDecl, Variant};
