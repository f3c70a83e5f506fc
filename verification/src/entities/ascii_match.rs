//! One matched fragment, as a row of `ascii_matches`.
use vstd::prelude::*;

verus! {

/// What an [`AsciiMatch`] holds.
pub struct AsciiMatchView {
    /// The row's id, once the store has assigned it.
    pub id: Option<i32>,
    /// The id of the rule match that the fragment belongs to.
    pub rule_match_id: i32,
    /// The fragment.
    pub matched_string: Seq<char>,
}

/// One matched fragment.
#[derive(Debug)]
pub struct AsciiMatch {
    id: Option<i32>,
    rule_match_id: i32,
    matched_string: String,
}

impl View for AsciiMatch {
    type V = AsciiMatchView;

    closed spec fn view(&self) -> AsciiMatchView {
        AsciiMatchView {
            id: self.id,
            rule_match_id: self.rule_match_id,
            matched_string: self.matched_string@,
        }
    }
}

impl AsciiMatch {
    /// A fragment that the store has not seen yet.
    pub fn new(rule_match_id: i32, matched_string: String) -> (row: Self)
        ensures
            row@ == (AsciiMatchView { id: None, rule_match_id, matched_string: matched_string@ }),
    {
        Self::create(None, rule_match_id, matched_string)
    }

    /// A fragment as the store holds it.
    pub fn with_id(id: i32, rule_match_id: i32, matched_string: String) -> (row: Self)
        ensures
            row@ == (AsciiMatchView {
                id: Some(id),
                rule_match_id,
                matched_string: matched_string@,
            }),
    {
        Self::create(Some(id), rule_match_id, matched_string)
    }

    /// A fragment with every field given.
    pub fn create(id: Option<i32>, rule_match_id: i32, matched_string: String) -> (row: Self)
        ensures
            row@ == (AsciiMatchView { id, rule_match_id, matched_string: matched_string@ }),
    {
        Self { id, rule_match_id, matched_string }
    }

    /// Records the id that the store assigned, or that it assigned none.
    pub fn set_id(&mut self, id: Option<i32>)
        ensures
            final(self)@ == (AsciiMatchView { id, ..old(self)@ }),
    {
        self.id = id;
    }

    pub fn id(&self) -> (id: Option<i32>)
        ensures
            id == self@.id,
    {
        self.id
    }

    pub fn rule_match_id(&self) -> (rule_match_id: i32)
        ensures
            rule_match_id == self@.rule_match_id,
    {
        self.rule_match_id
    }

    pub fn matched_string(&self) -> (fragment: &str)
        ensures
            fragment@ == self@.matched_string,
    {
        self.matched_string.as_str()
    }
}

} // verus!
