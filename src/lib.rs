//! Configurable routing of log records: a tree of dispatch nodes, each with a level floor,
//! per-target overrides, filters and a formatter, that decides which destinations receive
//! which formatted line.
use vstd::prelude::*;

pub mod dispatch;
pub mod errors;
pub mod filter;
pub mod format;
pub mod level;
pub mod record;

pub use dispatch::{Delivery, Dispatch, Endpoint, Output};
pub use errors::InitError;
pub use filter::Filter;
pub use format::Piece;
pub use level::{Level, LevelFilter};
pub use record::Metadata;

verus! {

/// A custom destination. It receives the message as the nodes above it have formatted it,
/// together with the record's metadata, and should write that message rather than one of its
/// own making.
pub trait FernLog: Sync + Send {
    /// Writes one formatted message for the record `record`.
    fn log_args(&self, payload: &str, record: &Metadata);
}

} // verus!
