//! The event that is scanned, and how it is read from its envelope.
use crate::errors::{DecodeFailure, DeserializationError};
use crate::json::{json_document, json_integer, json_member, json_text, member, parse};
use crate::timestamp::{
    envelope_reading, lemma_envelope_reading_is_valid, lemma_fields_give_the_reading_back,
    reading_of, CivilTime, Timestamp,
};
use crate::utils::text_of;
use serde_json::Value;
use vstd::prelude::*;
use vstd::string::*;

verus! {

/// What an [`Event`] holds.
pub struct EventView {
    /// The row's id, once the store has assigned it.
    pub id: Option<i32>,
    /// Where the file was found.
    pub url: Seq<char>,
    /// The file's size in bytes.
    pub size: nat,
    /// The source that the file came from.
    pub source: Seq<char>,
    /// The file's text.
    pub raw_content: Seq<char>,
    /// The file's name.
    pub filename: Seq<char>,
    /// Who made the file.
    pub creator: Seq<char>,
    /// When the file was made.
    pub created_at: CivilTime,
    /// When the file was found.
    pub discovered_at: CivilTime,
}

/// One captured file that is to be scanned.
#[derive(Debug)]
pub struct Event {
    id: Option<i32>,
    url: String,
    size: usize,
    source: String,
    raw_content: String,
    filename: String,
    creator: String,
    created_at: Timestamp,
    discovered_at: Timestamp,
}

impl View for Event {
    type V = EventView;

    closed spec fn view(&self) -> EventView {
        EventView {
            id: self.id,
            url: self.url@,
            size: self.size as nat,
            source: self.source@,
            raw_content: self.raw_content@,
            filename: self.filename@,
            creator: self.creator@,
            created_at: self.created_at@,
            discovered_at: self.discovered_at@,
        }
    }
}

/// The fields of an envelope as they were found, each absent where the
/// envelope has no value of the right kind under its key.
#[derive(Debug)]
pub struct Envelope {
    pub url: Option<String>,
    pub size: Option<i64>,
    pub source: Option<String>,
    pub raw_content: Option<String>,
    pub filename: Option<String>,
    pub creator: Option<String>,
    pub created_at: Option<String>,
    pub discovered_at: Option<String>,
}

/// What an [`Envelope`] holds.
pub struct EnvelopeView {
    pub url: Option<Seq<char>>,
    pub size: Option<i64>,
    pub source: Option<Seq<char>>,
    pub raw_content: Option<Seq<char>>,
    pub filename: Option<Seq<char>>,
    pub creator: Option<Seq<char>>,
    pub created_at: Option<Seq<char>>,
    pub discovered_at: Option<Seq<char>>,
}

impl View for Envelope {
    type V = EnvelopeView;

    open spec fn view(&self) -> EnvelopeView {
        EnvelopeView {
            url: text_of(self.url),
            size: self.size,
            source: text_of(self.source),
            raw_content: text_of(self.raw_content),
            filename: text_of(self.filename),
            creator: text_of(self.creator),
            created_at: text_of(self.created_at),
            discovered_at: text_of(self.discovered_at),
        }
    }
}

/// The fields that a JSON document offers for an event.
pub open spec fn envelope_of(document: Value) -> EnvelopeView {
    EnvelopeView {
        url: json_text(json_member(document, "url"@)),
        size: json_integer(json_member(document, "size"@)),
        source: json_text(json_member(document, "source"@)),
        raw_content: json_text(json_member(document, "raw_content"@)),
        filename: json_text(json_member(document, "filename"@)),
        creator: json_text(json_member(document, "creator"@)),
        created_at: json_text(json_member(document, "created_at"@)),
        discovered_at: json_text(json_member(document, "discovered_at"@)),
    }
}

/// Whether a required text is there and not empty.
pub open spec fn present(field: Option<Seq<char>>) -> bool {
    field matches Some(text) && text.len() > 0
}

/// The reading of a timestamp field, where the field can be read.
pub open spec fn stamp_of(field: Option<Seq<char>>) -> Option<CivilTime> {
    match field {
        Some(text) => envelope_reading(text),
        None => None,
    }
}

/// The event that an envelope stands for, or the first reason why it
/// stands for none. The fields are examined in this order: `url`, `size`,
/// `source`, `raw_content`, `filename`, `creator`, `created_at`,
/// `discovered_at`.
pub open spec fn decode_envelope(envelope: EnvelopeView) -> Result<EventView, DecodeFailure> {
    if !present(envelope.url) {
        Err(DecodeFailure::NoValue("url"@))
    } else if envelope.size is None {
        Err(DecodeFailure::NoValue("size"@))
    } else if envelope.size->0 < 0 || envelope.size->0 > usize::MAX {
        Err(DecodeFailure::MalformedValue("size"@))
    } else if !present(envelope.source) {
        Err(DecodeFailure::NoValue("source"@))
    } else if !present(envelope.raw_content) {
        Err(DecodeFailure::NoValue("raw_content"@))
    } else if !present(envelope.filename) {
        Err(DecodeFailure::NoValue("filename"@))
    } else if !present(envelope.creator) {
        Err(DecodeFailure::NoValue("creator"@))
    } else if envelope.created_at is None {
        Err(DecodeFailure::NoValue("created_at"@))
    } else if stamp_of(envelope.created_at) is None {
        Err(DecodeFailure::MalformedValue("created_at"@))
    } else if envelope.discovered_at is None {
        Err(DecodeFailure::NoValue("discovered_at"@))
    } else if stamp_of(envelope.discovered_at) is None {
        Err(DecodeFailure::MalformedValue("discovered_at"@))
    } else {
        Ok(
            EventView {
                id: None,
                url: envelope.url->0,
                size: envelope.size->0 as nat,
                source: envelope.source->0,
                raw_content: envelope.raw_content->0,
                filename: envelope.filename->0,
                creator: envelope.creator->0,
                created_at: stamp_of(envelope.created_at)->0,
                discovered_at: stamp_of(envelope.discovered_at)->0,
            },
        )
    }
}

/// The event that a payload stands for, or the first reason why it stands
/// for none.
pub open spec fn decode(payload: Seq<char>) -> Result<EventView, DecodeFailure> {
    match json_document(payload) {
        Some(document) => decode_envelope(envelope_of(document)),
        None => Err(DecodeFailure::InvalidJson),
    }
}

/// The event that is made again of an event that was written: it has the
/// id that the store assigned and, for the rest, the fields that were
/// written. This is what [`Event::create`] makes of them.
pub open spec fn read_back(id: i32, written: EventView) -> EventView {
    EventView { id: Some(id), ..written }
}

/// The six fields by which a reading is written to the second.
pub open spec fn fields_of(civil: CivilTime) -> (i32, u32, u32, u32, u32, u32) {
    (
        civil.year as i32,
        civil.month as u32,
        civil.day as u32,
        civil.hour as u32,
        civil.minute as u32,
        civil.second as u32,
    )
}

/// The round trip of an event. An event that is decoded from an envelope
/// has the url, source, content, file name, creator and size of the
/// envelope and the readings of its two timestamps. Written field by field,
/// its times to the second, and made again with the id of the store, it is
/// the same event but for the id.
pub proof fn lemma_round_trip(envelope: EnvelopeView, id: i32)
    requires
        decode_envelope(envelope) is Ok,
    ensures
        ({
            let decoded = decode_envelope(envelope)->Ok_0;
            let back = read_back(id, decoded);
            &&& Some(back.url) == envelope.url
            &&& Some(back.source) == envelope.source
            &&& Some(back.raw_content) == envelope.raw_content
            &&& Some(back.filename) == envelope.filename
            &&& Some(back.creator) == envelope.creator
            &&& back.size == envelope.size->0
            &&& Some(back.created_at) == stamp_of(envelope.created_at)
            &&& Some(back.discovered_at) == stamp_of(envelope.discovered_at)
            &&& reading_of(Some(fields_of(decoded.created_at))) == Some(back.created_at)
            &&& reading_of(Some(fields_of(decoded.discovered_at))) == Some(back.discovered_at)
            &&& back == (EventView { id: Some(id), ..decoded })
        }),
{
    let decoded = decode_envelope(envelope)->Ok_0;
    lemma_envelope_reading_is_valid(envelope.created_at->0);
    lemma_envelope_reading_is_valid(envelope.discovered_at->0);
    lemma_fields_give_the_reading_back(decoded.created_at);
    lemma_fields_give_the_reading_back(decoded.discovered_at);
}

/// Whether a result of decoding is the one that the model gives.
pub open spec fn decoded_as(
    result: Result<Event, DeserializationError>,
    model: Result<EventView, DecodeFailure>,
) -> bool {
    match result {
        Ok(event) => model == Ok::<EventView, DecodeFailure>(event@),
        Err(error) => model == Err::<EventView, DecodeFailure>(error@),
    }
}

fn required(field: Option<String>, name: &str) -> (value: Result<String, DeserializationError>)
    ensures
        match value {
            Ok(text) => present(text_of(field)) && text@ == field->0@,
            Err(error) => !present(text_of(field)) && error@ == DecodeFailure::NoValue(name@),
        },
{
    match field {
        Some(text) => {
            if text.as_str().is_empty() {
                Err(DeserializationError::NoValueError(String::from_str(name)))
            } else {
                Ok(text)
            }
        },
        None => Err(DeserializationError::NoValueError(String::from_str(name))),
    }
}

fn required_stamp(field: Option<String>, name: &str) -> (value: Result<
    Timestamp,
    DeserializationError,
>)
    ensures
        match value {
            Ok(stamp) => stamp_of(text_of(field)) == Some(stamp@),
            Err(error) => stamp_of(text_of(field)) is None && error@ == (if field is None {
                DecodeFailure::NoValue(name@)
            } else {
                DecodeFailure::MalformedValue(name@)
            }),
        },
{
    match field {
        Some(text) => match Timestamp::parse(text.as_str()) {
            Some(stamp) => Ok(stamp),
            None => Err(DeserializationError::MalformedValueError(String::from_str(name))),
        },
        None => Err(DeserializationError::NoValueError(String::from_str(name))),
    }
}

impl Envelope {
    /// Collects the fields of an event from a JSON document.
    pub fn from_json(document: &Value) -> (envelope: Envelope)
        ensures
            envelope@ == envelope_of(*document),
    {
        Envelope {
            url: Event::get_str(document, "url"),
            size: Event::get_i64(document, "size"),
            source: Event::get_str(document, "source"),
            raw_content: Event::get_str(document, "raw_content"),
            filename: Event::get_str(document, "filename"),
            creator: Event::get_str(document, "creator"),
            created_at: Event::get_str(document, "created_at"),
            discovered_at: Event::get_str(document, "discovered_at"),
        }
    }
}

impl Event {
    /// Reads an event from the JSON text of its envelope.
    pub fn from_json_str(json_str: &str) -> (result: Result<Self, DeserializationError>)
        ensures
            decoded_as(result, decode(json_str@)),
    {
        match parse(json_str) {
            Ok(document) => Event::from_envelope(Envelope::from_json(&document)),
            Err(error) => Err(DeserializationError::InvalidJsonError(error)),
        }
    }

    /// Builds an event from the fields of its envelope, or says which field
    /// stands in the way.
    pub fn from_envelope(envelope: Envelope) -> (result: Result<Self, DeserializationError>)
        ensures
            decoded_as(result, decode_envelope(envelope@)),
    {
        let url = match required(envelope.url, "url") {
            Ok(text) => text,
            Err(error) => return Err(error),
        };
        let size: usize = match envelope.size {
            Some(bytes) => {
                if bytes < 0 || bytes as u64 > usize::MAX as u64 {
                    return Err(
                        DeserializationError::MalformedValueError(String::from_str("size")),
                    );
                }
                bytes as usize
            },
            None => return Err(DeserializationError::NoValueError(String::from_str("size"))),
        };
        let source = match required(envelope.source, "source") {
            Ok(text) => text,
            Err(error) => return Err(error),
        };
        let raw_content = match required(envelope.raw_content, "raw_content") {
            Ok(text) => text,
            Err(error) => return Err(error),
        };
        let filename = match required(envelope.filename, "filename") {
            Ok(text) => text,
            Err(error) => return Err(error),
        };
        let creator = match required(envelope.creator, "creator") {
            Ok(text) => text,
            Err(error) => return Err(error),
        };
        let created_at = match required_stamp(envelope.created_at, "created_at") {
            Ok(stamp) => stamp,
            Err(error) => return Err(error),
        };
        let discovered_at = match required_stamp(envelope.discovered_at, "discovered_at") {
            Ok(stamp) => stamp,
            Err(error) => return Err(error),
        };
        Ok(
            Event {
                id: None,
                url,
                size,
                source,
                raw_content,
                filename,
                creator,
                created_at,
                discovered_at,
            },
        )
    }

    /// An event that the store has not seen yet.
    pub fn new(
        url: &str,
        size: usize,
        source: &str,
        raw_content: &str,
        filename: &str,
        creator: &str,
        created_at: Timestamp,
        discovered_at: Timestamp,
    ) -> (event: Self)
        ensures
            event@ == (EventView {
                id: None,
                url: url@,
                size: size as nat,
                source: source@,
                raw_content: raw_content@,
                filename: filename@,
                creator: creator@,
                created_at: created_at@,
                discovered_at: discovered_at@,
            }),
    {
        Self::create(
            None,
            url,
            size,
            source,
            raw_content,
            filename,
            creator,
            created_at,
            discovered_at,
        )
    }

    /// An event with every field given.
    pub fn create(
        id: Option<i32>,
        url: &str,
        size: usize,
        source: &str,
        raw_content: &str,
        filename: &str,
        creator: &str,
        created_at: Timestamp,
        discovered_at: Timestamp,
    ) -> (event: Self)
        ensures
            event@ == (EventView {
                id,
                url: url@,
                size: size as nat,
                source: source@,
                raw_content: raw_content@,
                filename: filename@,
                creator: creator@,
                created_at: created_at@,
                discovered_at: discovered_at@,
            }),
    {
        Self {
            id,
            url: url.to_owned(),
            size,
            source: source.to_owned(),
            raw_content: raw_content.to_owned(),
            filename: filename.to_owned(),
            creator: creator.to_owned(),
            created_at,
            discovered_at,
        }
    }

    /// Records the id that the store assigned, or that it assigned none.
    pub fn set_id(&mut self, id: Option<i32>)
        ensures
            final(self)@ == (EventView { id, ..old(self)@ }),
        no_unwind
    {
        self.id = id;
    }

    pub fn id(&self) -> (id: Option<i32>)
        ensures
            id == self@.id,
    {
        self.id
    }

    pub fn url(&self) -> (url: &str)
        ensures
            url@ == self@.url,
    {
        self.url.as_str()
    }

    pub fn size(&self) -> (size: usize)
        ensures
            size == self@.size,
    {
        self.size
    }

    pub fn source(&self) -> (source: &str)
        ensures
            source@ == self@.source,
    {
        self.source.as_str()
    }

    pub fn raw_content(&self) -> (raw_content: &str)
        ensures
            raw_content@ == self@.raw_content,
    {
        self.raw_content.as_str()
    }

    pub fn filename(&self) -> (filename: &str)
        ensures
            filename@ == self@.filename,
    {
        self.filename.as_str()
    }

    pub fn creator(&self) -> (creator: &str)
        ensures
            creator@ == self@.creator,
    {
        self.creator.as_str()
    }

    pub fn created_at(&self) -> (created_at: &Timestamp)
        ensures
            created_at@ == self@.created_at,
    {
        &self.created_at
    }

    pub fn discovered_at(&self) -> (discovered_at: &Timestamp)
        ensures
            discovered_at@ == self@.discovered_at,
    {
        &self.discovered_at
    }

    /// The text under `field_name`, where the document holds a string there.
    pub fn get_str(json: &Value, field_name: &str) -> (text: Option<String>)
        ensures
            text_of(text) == json_text(json_member(*json, field_name@)),
    {
        match member(json, field_name).as_str() {
            Some(text) => Some(text.to_owned()),
            None => None,
        }
    }

    /// The number under `field_name`, where the document holds an integer
    /// there.
    pub fn get_i64(json: &Value, field_name: &str) -> (number: Option<i64>)
        ensures
            number == json_integer(json_member(*json, field_name@)),
    {
        member(json, field_name).as_i64()
    }
}

} // verus!
