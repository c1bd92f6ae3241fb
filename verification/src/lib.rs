//! Filter inputs for a typed query schema: for each scalar kind a set of
//! operators (`eq`, `neq`, `like`, `isNull`) that is described to a schema
//! registry, read from a generic object and written back to one.

pub mod field_filter;
pub mod filter_ops;
pub mod generate;
pub mod laws;
pub mod registry;
pub mod scalar;
pub mod value;
