//! Core of a distributed dataframe query engine: a logical-to-physical
//! planner that lowers a tree of relational operations into an executable
//! tree of partition-aware physical operators, together with the typed
//! element-wise numeric kernels (`min`, `max`, `clip`) that the physical
//! plan invokes through a runtime-dtype dispatch layer.

pub mod array;
pub mod dtype;
pub mod error;
pub mod expr;
pub mod fbits;
pub mod functions;
pub mod logical;
pub mod physical;
pub mod planner;
pub mod series;
