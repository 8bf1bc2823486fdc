//! A planning model for sharded vector-search deployments.
//!
//! The crate keeps a registry of how an index's vectors are spread over
//! shards, lets that layout be changed (new shards, vector transfers),
//! and predicts the latency of one scatter-gather query over the layout
//! with a closed-form integer cost model.

pub mod index;
pub mod simulation;
pub mod timing;
