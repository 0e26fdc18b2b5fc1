//! Cycle-level models of streaming dataflow blocks: a vector-matrix block and
//! an elementwise activation block, each written as a state machine that a
//! scheduler drives through channel events.

pub mod linalg;
pub mod events;
pub mod blocks;
