//! The user-preferences model: the schema of the preferences documents and
//! the defaulting rules that resolve an optional input document into
//! concrete values.

pub mod types;
pub mod handlers;
