//! Utilities for applications built on the engine.

pub mod input;
pub mod registry;
