//! Fetches a fixed range of numbered text resources and stores each one locally,
//! skipping those already present.
//!
//! The library holds the decisions: how an item's file name and address are
//! derived, what a fetch task does next after each answer from the outside
//! world, and when a batch of tasks has finished. The caller performs the
//! network and file work that the decisions ask for.

pub mod naming;
pub mod task;
pub mod batch;
pub mod laws;
