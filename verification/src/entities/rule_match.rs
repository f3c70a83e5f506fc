//! One rule that fired on one event, as a row of `rule_matches`.
use crate::utils::texts;
use vstd::prelude::*;

verus! {

/// What a [`RuleMatch`] holds.
pub struct RuleMatchView {
    /// The row's id, once the store has assigned it.
    pub id: Option<i32>,
    /// The id of the event that the rule fired on.
    pub event_id: i32,
    /// The rule's qualified name.
    pub rule_matched: Seq<char>,
    /// The rule's tags.
    pub tags_matched: Seq<Seq<char>>,
}

/// One rule that fired on one event.
#[derive(Debug)]
pub struct RuleMatch {
    id: Option<i32>,
    event_id: i32,
    rule_matched: String,
    tags_matched: Vec<String>,
}

impl View for RuleMatch {
    type V = RuleMatchView;

    closed spec fn view(&self) -> RuleMatchView {
        RuleMatchView {
            id: self.id,
            event_id: self.event_id,
            rule_matched: self.rule_matched@,
            tags_matched: texts(self.tags_matched@),
        }
    }
}

impl RuleMatch {
    /// A rule match that the store has not seen yet.
    pub fn new(event_id: i32, rule_matched: String, tags_matched: Vec<String>) -> (row: Self)
        ensures
            row@ == (RuleMatchView {
                id: None,
                event_id,
                rule_matched: rule_matched@,
                tags_matched: texts(tags_matched@),
            }),
    {
        Self::create(None, event_id, rule_matched, tags_matched)
    }

    /// A rule match with every field given.
    pub fn create(
        id: Option<i32>,
        event_id: i32,
        rule_matched: String,
        tags_matched: Vec<String>,
    ) -> (row: Self)
        ensures
            row@ == (RuleMatchView {
                id,
                event_id,
                rule_matched: rule_matched@,
                tags_matched: texts(tags_matched@),
            }),
    {
        Self { id, event_id, rule_matched, tags_matched }
    }

    /// Records the id that the store assigned, or that it assigned none.
    pub fn set_id(&mut self, id: Option<i32>)
        ensures
            final(self)@ == (RuleMatchView { id, ..old(self)@ }),
    {
        self.id = id;
    }

    pub fn id(&self) -> (id: Option<i32>)
        ensures
            id == self@.id,
    {
        self.id
    }

    pub fn event_id(&self) -> (event_id: i32)
        ensures
            event_id == self@.event_id,
    {
        self.event_id
    }

    pub fn rule_matched(&self) -> (name: &str)
        ensures
            name@ == self@.rule_matched,
    {
        self.rule_matched.as_str()
    }

    pub fn tags_matched(&self) -> (tags: &[String])
        ensures
            texts(tags@) == self@.tags_matched,
    {
        self.tags_matched.as_slice()
    }
}

} // verus!
