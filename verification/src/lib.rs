//! Candidate-execution-path construction for a planner's extensibility hook:
//! sort-direction codes, order-by classification, capability flags, restriction
//! selection, and the fluent builder that freezes one candidate path descriptor.

pub mod builder;
pub mod flags;
pub mod order_by;
pub mod restriction;
pub mod rounding;
pub mod sort_direction;
