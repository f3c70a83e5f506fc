//! How processed events are written to the store.
pub mod loader;

pub use loader::{LoadJob, Outcome, Reply, Stage, Write, WriteView};
