//! Acquisition and launch logic for pipes: small script bundles that are
//! copied into a local workspace and run under a sandboxed script runtime.

pub mod entry;
pub mod error;
pub mod launch;
pub mod listing;
pub mod name;
pub mod runtime;
pub mod source;
pub mod text;

pub use error::PipeError;
