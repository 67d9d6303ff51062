//! Core of a review-feedback workbench: a store of captured review comments,
//! a heuristic transformer deriving (problem, fix) training pairs from them,
//! productivity-metric totals, and the decision logic of the capture bridge
//! that merges externally extracted comments into the store.

pub mod bridge;
pub mod diagram;
pub mod documents;
pub mod metrics;
pub mod model;
pub mod rag;
pub mod store;
pub mod templates;
pub mod text;
