//! Expression compiler and vectorized evaluator of a columnar query engine.
//!
//! A logical expression tree is lowered once, against a schema, into a
//! compiled expression that can then be evaluated on many record batches.
pub mod types;
pub mod kernels;
pub mod expression;
pub mod laws;
