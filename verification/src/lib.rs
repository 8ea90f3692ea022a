//! Error-diagnosis core of a small-language parser: a closed taxonomy of
//! parse-time failures, a diagnostic that carries a human-readable message and
//! source positions, a wrapper that couples a failure with the offending
//! source nodes, and a bridge that folds resource-budget exhaustion into the
//! same failure type.

pub mod costs;
pub mod diagnostic;
pub mod errors;
pub mod laws;
pub mod representations;
pub mod text;
