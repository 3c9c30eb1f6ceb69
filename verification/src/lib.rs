//! Compiles a schema description into declarations of statically typed
//! server-side bindings.

pub mod error;
pub mod sequences;
pub mod schema;
pub mod nullable_type;
pub mod literal;
pub mod names;
pub mod code;
pub mod output;
pub mod registry;
pub mod scalars;
pub mod attributes;
pub mod field;
pub mod generator;

pub use crate::generator::gen_juniper_code;
