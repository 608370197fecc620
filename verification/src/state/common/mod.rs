//! What the phases share.

pub mod render;
