//! A note that a file of a source was seen, as a row of `index_cache`.
use std::time::SystemTime;
use vstd::prelude::*;

verus! {

/// std's `SystemTime`: a reading of the system clock, carried through
/// unopened.
#[verifier::external_type_specification]
#[verifier::external_body]
pub struct ExSystemTime(std::time::SystemTime);

/// `SystemTime::now`: the time of the system clock. Nothing is claimed of
/// it.
pub assume_specification[ SystemTime::now ]() -> SystemTime
;

/// What an [`IndexCache`] holds.
pub struct IndexCacheView {
    /// The row's id.
    pub id: i32,
    /// The source that the file came from.
    pub source: Seq<char>,
    /// The name that the source gives the file.
    pub source_id: Seq<char>,
    /// The reading of the system clock that was taken when the note was
    /// made.
    pub cached_at: SystemTime,
}

/// A note that a file of a source was seen.
pub struct IndexCache {
    id: i32,
    source: String,
    source_id: String,
    cached_at: SystemTime,
}

impl View for IndexCache {
    type V = IndexCacheView;

    closed spec fn view(&self) -> IndexCacheView {
        IndexCacheView {
            id: self.id,
            source: self.source@,
            source_id: self.source_id@,
            cached_at: self.cached_at,
        }
    }
}

impl IndexCache {
    /// A note made now: it holds what it is given and the reading of the
    /// system clock at the time of the call.
    pub fn new(id: i32, source: String, source_id: String) -> (note: Self)
        ensures
            note@.id == id,
            note@.source == source@,
            note@.source_id == source_id@,
    {
        let cached_at = SystemTime::now();
        Self { id, source, source_id, cached_at }
    }

    /// Records the id that the store assigned. Nothing else changes, the
    /// time at which the note was made included.
    pub fn set_id(&mut self, id: i32)
        ensures
            final(self)@ == (IndexCacheView { id, ..old(self)@ }),
    {
        self.id = id;
    }

    pub fn id(&self) -> (id: i32)
        ensures
            id == self@.id,
    {
        self.id
    }

    pub fn source(&self) -> (source: &str)
        ensures
            source@ == self@.source,
    {
        self.source.as_str()
    }

    pub fn source_id(&self) -> (source_id: &str)
        ensures
            source_id@ == self@.source_id,
    {
        self.source_id.as_str()
    }

    /// The time at which the note was made.
    pub fn cached_at(&self) -> (cached_at: &SystemTime)
        ensures
            *cached_at == self@.cached_at,
    {
        &self.cached_at
    }
}

} // verus!
