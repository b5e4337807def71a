//! The decisions behind the crate's code-generating macros, taken on plain
//! descriptions of the items they rewrite.

pub mod constraint;
pub mod domain_type;
pub mod instrument;
pub mod postgres_paths;
pub mod syntax;
