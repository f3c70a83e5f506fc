//! What a feeder does with what it pops from the queue.
//!
//! A feeder blocks on the queue named [`EVENT_QUEUE`]. Each pop gives the
//! queue's name and a payload. The payload `QUIT` tells the feeder to stop;
//! any other payload is the envelope of an event, which is decoded and sent
//! on. A pop that fails and an envelope that cannot be decoded cost one item
//! and never the worker.
use crate::entities::event::{decode, Event, EventView};
use crate::errors::{DecodeFailure, DeserializationError};
use crate::utils::same_text;
use vstd::prelude::*;
use vstd::string::*;

verus! {

/// The name of the queue that feeders pop from.
pub const EVENT_QUEUE: &'static str = "events";

/// The payload that tells a feeder to stop.
pub open spec fn quit_sentinel() -> Seq<char> {
    "QUIT"@
}

/// What a [`Message`] holds.
pub struct MessageView {
    /// The name of the queue that the message was popped from.
    pub name: Seq<char>,
    /// What the message carries.
    pub payload: Seq<char>,
}

/// One message popped from the queue.
#[derive(Debug)]
pub struct Message {
    name: String,
    payload: String,
}

impl View for Message {
    type V = MessageView;

    closed spec fn view(&self) -> MessageView {
        MessageView { name: self.name@, payload: self.payload@ }
    }
}

/// What a feeder does next.
#[derive(Debug)]
pub enum FeedAction {
    /// Pop again: the pop failed or gave no message.
    Retry,
    /// Leave the loop: the payload was the sentinel.
    Stop,
    /// Send this event on to the processors, then pop again.
    Forward(Event),
    /// Pop again: the payload could not be decoded, for this reason.
    Skip(DeserializationError),
}

/// What a [`FeedAction`] asks for.
pub enum FeedActionView {
    Retry,
    Stop,
    Forward(EventView),
    Skip(DecodeFailure),
}

impl View for FeedAction {
    type V = FeedActionView;

    open spec fn view(&self) -> FeedActionView {
        match *self {
            FeedAction::Retry => FeedActionView::Retry,
            FeedAction::Stop => FeedActionView::Stop,
            FeedAction::Forward(event) => FeedActionView::Forward(event@),
            FeedAction::Skip(error) => FeedActionView::Skip(error@),
        }
    }
}

/// What is done with a payload.
pub open spec fn action_for(payload: Seq<char>) -> FeedActionView {
    if payload == quit_sentinel() {
        FeedActionView::Stop
    } else {
        match decode(payload) {
            Ok(event) => FeedActionView::Forward(event),
            Err(failure) => FeedActionView::Skip(failure),
        }
    }
}

impl Message {
    /// The message that a pop returned: the queue's name first, the
    /// payload second. A reply with fewer than two texts is no message.
    pub fn from_reply(reply: Vec<String>) -> (message: Option<Message>)
        ensures
            message is Some <==> reply@.len() >= 2,
            message matches Some(m) ==> m@ == (MessageView {
                name: reply@[0]@,
                payload: reply@[1]@,
            }),
    {
        if reply.len() < 2 {
            return None;
        }
        Some(Message { name: reply[0].clone(), payload: reply[1].clone() })
    }

    /// The name of the queue that the message was popped from.
    pub fn name(&self) -> (name: &str)
        ensures
            name@ == self@.name,
    {
        self.name.as_str()
    }

    /// What the message carries.
    pub fn payload(&self) -> (payload: &str)
        ensures
            payload@ == self@.payload,
    {
        self.payload.as_str()
    }
}

/// Decides what a feeder does with the outcome of one pop: `None` where the
/// pop failed, else the message that it returned.
pub fn react(popped: Option<Message>) -> (action: FeedAction)
    ensures
        action@ == match popped {
            Some(message) => action_for(message@.payload),
            None => FeedActionView::Retry,
        },
{
    match popped {
        Some(message) => react_to_payload(message.payload()),
        None => FeedAction::Retry,
    }
}

/// Decides what a feeder does with a payload.
pub fn react_to_payload(payload: &str) -> (action: FeedAction)
    ensures
        action@ == action_for(payload@),
{
    if same_text(payload, "QUIT") {
        return FeedAction::Stop;
    }
    match Event::from_json_str(payload) {
        Ok(event) => FeedAction::Forward(event),
        Err(error) => FeedAction::Skip(error),
    }
}

} // verus!
