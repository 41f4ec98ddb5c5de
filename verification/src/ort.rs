//! The object runtime's side of the boundary: values, executor results, function loading
//! and object proxies.

pub mod buffer;
pub mod executor;
pub mod field_table;
pub mod function;
pub mod object_proxy;
pub mod value;
