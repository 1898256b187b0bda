//! Typed operations on wiki documents, mapped onto the primitive requests of a
//! partitioned key-value table with one secondary index.

pub mod adapter;
pub mod model;
pub mod protocol;
pub mod resolver;
pub mod table;
pub mod laws;
