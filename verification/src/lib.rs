//! Compile-time method-export pipeline for a host-engine binding layer.
//!
//! The crate has two parts. The `registry` module is a lookup table from a
//! stable type-identity key to the name a class was exported under. The
//! remaining modules form the method-export analyzer: they take an
//! implementation block, modeled as plain data, extract export markers from
//! its methods, validate parameter shapes, and produce a cleaned block
//! together with the registration steps a class builder consumes.

pub mod ast;
pub mod rpc;
pub mod analyze;
pub mod assemble;
pub mod registry;
pub mod laws;
