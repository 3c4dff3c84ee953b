//! Package-name availability checking: a registry catalog, a signal
//! classifier that turns an HTTP status/body pair into a verdict, and the
//! pure core of the concurrent probe engine.

pub mod checker;
pub mod permits;
pub mod registry;
pub mod text;
pub mod types;
