//! An event together with the rules that fired on it.
use crate::entities::event::{Event, EventView};
use crate::entities::flat_match::{flat_views, FlatMatch, FlatMatchView};
use vstd::prelude::*;

verus! {

/// What a [`ProcessedEvent`] holds.
pub struct ProcessedEventView {
    /// The event that was scanned.
    pub event: EventView,
    /// The rules that fired on it, in the engine's order.
    pub matches: Seq<FlatMatchView>,
}

/// An event and its matches. There is always at least one match: an event
/// on which no rule fired is never made into a processed event.
#[derive(Debug)]
pub struct ProcessedEvent {
    event: Event,
    matches: Vec<FlatMatch>,
}

impl View for ProcessedEvent {
    type V = ProcessedEventView;

    closed spec fn view(&self) -> ProcessedEventView {
        ProcessedEventView { event: self.event@, matches: flat_views(self.matches@) }
    }
}

impl ProcessedEvent {
    #[verifier::type_invariant]
    spec fn has_a_match(self) -> bool {
        self.matches@.len() >= 1
    }

    /// Joins an event to its matches; `None` where there is no match.
    pub fn new(event: Event, matches: Vec<FlatMatch>) -> (processed: Option<ProcessedEvent>)
        ensures
            processed is Some <==> matches@.len() >= 1,
            processed matches Some(p) ==> p@ == (ProcessedEventView {
                event: event@,
                matches: flat_views(matches@),
            }),
    {
        if matches.len() == 0 {
            None
        } else {
            Some(ProcessedEvent { event, matches })
        }
    }

    /// The event that was scanned.
    pub fn event(&self) -> (event: &Event)
        ensures
            event@ == self@.event,
    {
        &self.event
    }

    /// The rules that fired, of which there is at least one.
    pub fn matches(&self) -> (matches: &Vec<FlatMatch>)
        ensures
            flat_views(matches@) == self@.matches,
            matches@.len() >= 1,
    {
        proof {
            use_type_invariant(self);
        }
        &self.matches
    }

    /// Takes the processed event apart.
    pub fn into_parts(self) -> (parts: (Event, Vec<FlatMatch>))
        ensures
            parts.0@ == self@.event,
            flat_views(parts.1@) == self@.matches,
            parts.1@.len() >= 1,
    {
        proof {
            use_type_invariant(&self);
        }
        (self.event, self.matches)
    }
}

} // verus!
