//! Compiles a dynamically typed configuration document into a validated,
//! versioned system configuration header: schema dispatch, metadata rules,
//! the named source table and the inheritance declarations bound to it.

pub mod document;
pub mod error;
pub mod text;
pub mod model;
pub mod table;
pub mod schema;
pub mod laws;
