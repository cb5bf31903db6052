//! Generation of Rust declarations for the mbedTLS C interface: the decisions
//! and the text that the generator produces, with their contracts.

pub mod emit;
pub mod error;
pub mod extractor;
pub mod flags;
pub mod headers;
pub mod pipeline;
pub mod policy;
pub mod shims;
pub mod text;
