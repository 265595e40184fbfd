//! Interactive scaffolding library: collects naming and typing decisions,
//! renders a cluster of source files for one CRUD feature module, and
//! computes the patches that wire the feature into three shared registry
//! files. All logic here is pure: the surrounding binary performs the
//! terminal and filesystem work and feeds the results back in.

pub mod collector;
pub mod create;
pub mod engine;
pub mod models;
pub mod patch;
pub mod prompt;
pub mod properties;
pub mod render;
pub mod text;
