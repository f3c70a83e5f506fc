//! An event as a source hands it over, before anything is known of its
//! times: every field is text but the size.
use vstd::prelude::*;

verus! {

/// The source that an event came from.
#[derive(Clone, Copy, Debug, PartialEq, Eq, Structural)]
pub enum EventSource {
    Gist,
    Github,
    Paste,
}

/// What an [`Event`] holds.
pub struct EventView {
    /// The name that the source gives the file.
    pub id: Seq<char>,
    /// Where the file was found.
    pub url: Seq<char>,
    /// The file's size in bytes.
    pub size: u64,
    /// The file's name.
    pub filename: Seq<char>,
    /// Who made the file.
    pub creator: Seq<char>,
    /// The file's text.
    pub raw_content: Seq<char>,
    /// When the event was received, as the source writes it.
    pub timestamp: Seq<char>,
    /// The source that the event came from.
    pub event_source: EventSource,
}

/// An event of any source.
pub struct Event {
    id: String,
    url: String,
    size: u64,
    filename: String,
    creator: String,
    raw_content: String,
    timestamp: String,
    event_source: EventSource,
}

impl View for Event {
    type V = EventView;

    closed spec fn view(&self) -> EventView {
        EventView {
            id: self.id@,
            url: self.url@,
            size: self.size,
            filename: self.filename@,
            creator: self.creator@,
            raw_content: self.raw_content@,
            timestamp: self.timestamp@,
            event_source: self.event_source,
        }
    }
}

impl Event {
    pub fn new(
        id: String,
        url: String,
        size: u64,
        filename: String,
        creator: String,
        raw_content: String,
        timestamp: String,
        event_source: EventSource,
    ) -> (event: Self)
        ensures
            event@ == (EventView {
                id: id@,
                url: url@,
                size,
                filename: filename@,
                creator: creator@,
                raw_content: raw_content@,
                timestamp: timestamp@,
                event_source,
            }),
    {
        Self { id, url, size, filename, creator, raw_content, timestamp, event_source }
    }

    pub fn id(&self) -> (id: &str)
        ensures
            id@ == self@.id,
    {
        self.id.as_str()
    }

    pub fn url(&self) -> (url: &str)
        ensures
            url@ == self@.url,
    {
        self.url.as_str()
    }

    pub fn size(&self) -> (size: u64)
        ensures
            size == self@.size,
    {
        self.size
    }

    pub fn filename(&self) -> (filename: &str)
        ensures
            filename@ == self@.filename,
    {
        self.filename.as_str()
    }

    pub fn creator(&self) -> (creator: &str)
        ensures
            creator@ == self@.creator,
    {
        self.creator.as_str()
    }

    pub fn raw_content(&self) -> (raw_content: &str)
        ensures
            raw_content@ == self@.raw_content,
    {
        self.raw_content.as_str()
    }

    pub fn timestamp(&self) -> (timestamp: &str)
        ensures
            timestamp@ == self@.timestamp,
    {
        self.timestamp.as_str()
    }

    pub fn event_source(&self) -> (event_source: &EventSource)
        ensures
            *event_source == self@.event_source,
    {
        &self.event_source
    }
}

} // verus!
