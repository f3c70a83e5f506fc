//! The values that travel through the pipeline and the rows that are written.
pub mod ascii_match;
pub mod event;
pub mod flat_match;
pub mod index_cache;
pub mod processed_event;
pub mod rule_match;

pub use ascii_match::{AsciiMatch, AsciiMatchView};
pub use event::{Envelope, EnvelopeView, Event, EventView};
pub use flat_match::{FlatMatch, FlatMatchView, RuleHit, RuleHitView};
pub use index_cache::{IndexCache, IndexCacheView};
pub use processed_event::{ProcessedEvent, ProcessedEventView};
pub use rule_match::{RuleMatch, RuleMatchView};
