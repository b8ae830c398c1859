//! An expression evaluator for a spreadsheet-like grid.
//!
//! Scalars (`value`) combine into expression trees (`expr`) of operators
//! (`operation`) and range aggregates (`statistics`), evaluated against a grid of
//! cell bindings (`environment`). Float arithmetic is supplied by the caller
//! through `float::FloatUnit`; everything else is proved against the
//! specifications in `expr` and `operation`, and `laws` states the properties
//! that follow.
pub mod address;
pub mod environment;
pub mod error;
pub mod expr;
pub mod float;
pub mod laws;
pub mod operation;
pub mod render;
pub mod statistics;
pub mod value;
