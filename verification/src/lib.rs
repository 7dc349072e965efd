//! Core of a small log-monitoring pipeline: a parser for a fixed log-line
//! grammar, an entry queue drained in atomic batches, and a statistics store
//! that folds each batch into cumulative counters and derived metrics.

pub mod parsing;
pub mod queue;
pub mod stats;
