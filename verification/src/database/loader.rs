//! The writing of one processed event, as a conversation with the store.
//!
//! One processed event is written inside one transaction: first the event,
//! then, for each of its matches in order, the rule match and after it the
//! fragments of that match in order, then the commit. A [`LoadJob`] knows
//! which write is due; the caller performs it against the store and reports
//! how it went. The first write that fails ends the job: nothing more is
//! asked for, and the caller drops the transaction.
use crate::entities::ascii_match::{AsciiMatch, AsciiMatchView};
use crate::entities::event::{Event, EventView};
use crate::entities::flat_match::{flat_views, FlatMatch, FlatMatchView};
use crate::entities::processed_event::{ProcessedEvent, ProcessedEventView};
use crate::entities::rule_match::{RuleMatch, RuleMatchView};
use crate::utils::{clone_strings, texts};
use vstd::prelude::*;

verus! {

/// How the store answered a write.
#[derive(Clone, Copy, Debug, PartialEq, Eq, Structural)]
pub enum Reply {
    /// The write failed.
    Failed,
    /// The write was carried out; it assigns no id.
    Done,
    /// A row was stored, and this is the id that came back for it, if one
    /// did.
    Stored(Option<i32>),
}

/// How a job ended.
#[derive(Clone, Copy, Debug, PartialEq, Eq, Structural)]
pub enum Outcome {
    /// Every row was written and the transaction was committed.
    Committed,
    /// The event could not be inserted.
    EventFailed,
    /// The event was inserted, but no id came back for it.
    EventWithoutId,
    /// A rule match could not be inserted.
    RuleMatchFailed,
    /// A rule match was inserted, but no id came back for it.
    RuleMatchWithoutId,
    /// A fragment could not be inserted.
    AsciiMatchFailed,
    /// The commit failed.
    CommitFailed,
}

/// Which write is due.
#[derive(Clone, Copy, Debug, PartialEq, Eq, Structural)]
pub enum Stage {
    /// The event.
    Event,
    /// The rule match of match number `rule`.
    RuleMatch { event_id: i32, rule: usize },
    /// Fragment number `fragment` of match number `rule`.
    AsciiMatch { event_id: i32, rule: usize, rule_match_id: i32, fragment: usize },
    /// The commit.
    Commit,
    /// None: the job is over.
    Closed(Outcome),
}

/// A write that the caller is asked to perform.
#[derive(Debug)]
pub enum Write {
    /// Insert the job's event.
    Event,
    /// Insert this rule match.
    RuleMatch(RuleMatch),
    /// Insert this fragment.
    AsciiMatch(AsciiMatch),
    /// Commit the transaction.
    Commit,
    /// Nothing more: the job ended in this way. Unless it is
    /// [`Outcome::Committed`], the transaction is to be dropped.
    Finish(Outcome),
}

/// What a [`Write`] asks for.
pub enum WriteView {
    Event,
    RuleMatch(RuleMatchView),
    AsciiMatch(AsciiMatchView),
    Commit,
    Finish(Outcome),
}

impl View for Write {
    type V = WriteView;

    open spec fn view(&self) -> WriteView {
        match *self {
            Write::Event => WriteView::Event,
            Write::RuleMatch(row) => WriteView::RuleMatch(row@),
            Write::AsciiMatch(row) => WriteView::AsciiMatch(row@),
            Write::Commit => WriteView::Commit,
            Write::Finish(outcome) => WriteView::Finish(outcome),
        }
    }
}

/// Whether the indices of a stage point into the matches.
pub open spec fn stage_valid(matches: Seq<FlatMatchView>, stage: Stage) -> bool {
    match stage {
        Stage::RuleMatch { rule, .. } => rule < matches.len(),
        Stage::AsciiMatch { rule, fragment, .. } => rule < matches.len() && fragment
            < matches[rule as int].data.len(),
        _ => true,
    }
}

/// The write that is due in a stage.
pub open spec fn pending(matches: Seq<FlatMatchView>, stage: Stage) -> WriteView {
    match stage {
        Stage::Event => WriteView::Event,
        Stage::RuleMatch { event_id, rule } => WriteView::RuleMatch(
            RuleMatchView {
                id: None,
                event_id,
                rule_matched: matches[rule as int].rule_name,
                tags_matched: matches[rule as int].tags,
            },
        ),
        Stage::AsciiMatch { rule, rule_match_id, fragment, .. } => WriteView::AsciiMatch(
            AsciiMatchView {
                id: None,
                rule_match_id,
                matched_string: matches[rule as int].data[fragment as int],
            },
        ),
        Stage::Commit => WriteView::Commit,
        Stage::Closed(outcome) => WriteView::Finish(outcome),
    }
}

/// The stage in which match number `rule` is begun: its rule match, or
/// the commit where there is no such match.
pub open spec fn enter_rule(matches: Seq<FlatMatchView>, event_id: i32, rule: int) -> Stage {
    if rule < matches.len() {
        Stage::RuleMatch { event_id, rule: rule as usize }
    } else {
        Stage::Commit
    }
}

/// The stage that comes to fragment number `fragment` of match number
/// `rule`: that fragment, or the next match where there is no such fragment.
pub open spec fn enter_fragment(
    matches: Seq<FlatMatchView>,
    event_id: i32,
    rule: int,
    rule_match_id: i32,
    fragment: int,
) -> Stage {
    if fragment < matches[rule].data.len() {
        Stage::AsciiMatch {
            event_id,
            rule: rule as usize,
            rule_match_id,
            fragment: fragment as usize,
        }
    } else {
        enter_rule(matches, event_id, rule + 1)
    }
}

/// Whether `reply` says that the write of `stage` went through.
pub open spec fn accepted(stage: Stage, reply: Reply) -> bool {
    match stage {
        Stage::Event | Stage::RuleMatch { .. } => reply matches Reply::Stored(Some(_)),
        Stage::AsciiMatch { .. } => reply is Stored,
        Stage::Commit => reply is Done,
        Stage::Closed(_) => false,
    }
}

/// The stage that follows `stage` once `reply` has answered its write.
pub open spec fn advance(matches: Seq<FlatMatchView>, stage: Stage, reply: Reply) -> Stage {
    match stage {
        Stage::Event => match reply {
            Reply::Stored(Some(id)) => enter_rule(matches, id, 0),
            Reply::Stored(None) => Stage::Closed(Outcome::EventWithoutId),
            _ => Stage::Closed(Outcome::EventFailed),
        },
        Stage::RuleMatch { event_id, rule } => match reply {
            Reply::Stored(Some(id)) => enter_fragment(matches, event_id, rule as int, id, 0),
            Reply::Stored(None) => Stage::Closed(Outcome::RuleMatchWithoutId),
            _ => Stage::Closed(Outcome::RuleMatchFailed),
        },
        Stage::AsciiMatch { event_id, rule, rule_match_id, fragment } => match reply {
            Reply::Stored(_) => enter_fragment(
                matches,
                event_id,
                rule as int,
                rule_match_id,
                fragment + 1,
            ),
            _ => Stage::Closed(Outcome::AsciiMatchFailed),
        },
        Stage::Commit => match reply {
            Reply::Done => Stage::Closed(Outcome::Committed),
            _ => Stage::Closed(Outcome::CommitFailed),
        },
        Stage::Closed(outcome) => Stage::Closed(outcome),
    }
}

/// The id that the event has once `reply` has answered the write of
/// `stage`: the one that the store assigned when the event was inserted.
pub open spec fn event_id_after(id: Option<i32>, stage: Stage, reply: Reply) -> Option<i32> {
    match (stage, reply) {
        (Stage::Event, Reply::Stored(assigned)) => assigned,
        _ => id,
    }
}

/// The writing of one processed event.
pub struct LoadJob {
    event: Event,
    matches: Vec<FlatMatch>,
    stage: Stage,
}

impl LoadJob {
    #[verifier::type_invariant]
    spec fn well_formed(self) -> bool {
        stage_valid(flat_views(self.matches@), self.stage)
    }

    /// The processed event that is written, with the id that the store has
    /// assigned to the event so far.
    pub closed spec fn subject(self) -> ProcessedEventView {
        ProcessedEventView { event: self.event@, matches: flat_views(self.matches@) }
    }

    /// Which write is due.
    pub closed spec fn stage(self) -> Stage {
        self.stage
    }

    /// Begins the writing of a processed event. The transaction is open;
    /// the first write that is due is the event.
    pub fn new(processed: ProcessedEvent) -> (job: LoadJob)
        ensures
            job.subject() == processed@,
            job.stage() == Stage::Event,
    {
        let (event, matches) = processed.into_parts();
        LoadJob { event, matches, stage: Stage::Event }
    }

    /// The event that is written.
    pub fn event(&self) -> (event: &Event)
        ensures
            event@ == self.subject().event,
    {
        &self.event
    }

    /// The write that is due.
    pub fn pending(&self) -> (write: Write)
        ensures
            write@ == pending(self.subject().matches, self.stage()),
            stage_valid(self.subject().matches, self.stage()),
    {
        proof {
            use_type_invariant(self);
        }
        match self.stage {
            Stage::Event => Write::Event,
            Stage::RuleMatch { event_id, rule } => {
                let flat = &self.matches[rule];
                Write::RuleMatch(
                    RuleMatch::new(
                        event_id,
                        flat.rule_name().to_owned(),
                        clone_strings(flat.tags()),
                    ),
                )
            },
            Stage::AsciiMatch { rule, rule_match_id, fragment, .. } => {
                let flat = &self.matches[rule];
                let data = flat.data();
                assert(texts(data@)[fragment as int] == data@[fragment as int]@);
                Write::AsciiMatch(AsciiMatch::new(rule_match_id, data[fragment].clone()))
            },
            Stage::Commit => Write::Commit,
            Stage::Closed(outcome) => Write::Finish(outcome),
        }
    }

    /// Takes the store's answer to the write that was due and moves on to
    /// the next one. An answer that does not say the write went through
    /// ends the job.
    pub fn reply(&mut self, reply: Reply)
        ensures
            final(self).stage() == advance(old(self).subject().matches, old(self).stage(), reply),
            final(self).subject().matches == old(self).subject().matches,
            final(self).subject().event == (EventView {
                id: event_id_after(old(self).subject().event.id, old(self).stage(), reply),
                ..old(self).subject().event
            }),
            stage_valid(final(self).subject().matches, final(self).stage()),
    {
        proof {
            use_type_invariant(&*self);
        }
        match self.stage {
            Stage::Event => match reply {
                Reply::Stored(assigned) => {
                    self.event.set_id(assigned);
                    match assigned {
                        Some(id) => {
                            self.stage = Self::rule_stage(&self.matches, id, 0);
                        },
                        None => {
                            self.stage = Stage::Closed(Outcome::EventWithoutId);
                        },
                    }
                },
                _ => {
                    self.stage = Stage::Closed(Outcome::EventFailed);
                },
            },
            Stage::RuleMatch { event_id, rule } => match reply {
                Reply::Stored(Some(id)) => {
                    self.stage = Self::fragment_stage(&self.matches, event_id, rule, id, 0);
                },
                Reply::Stored(None) => {
                    self.stage = Stage::Closed(Outcome::RuleMatchWithoutId);
                },
                _ => {
                    self.stage = Stage::Closed(Outcome::RuleMatchFailed);
                },
            },
            Stage::AsciiMatch { event_id, rule, rule_match_id, fragment } => match reply {
                Reply::Stored(_) => {
                    let data = self.matches[rule].data();
                    let fragments = data.len();
                    assert(texts(data@).len() == fragments);
                    self.stage = Self::fragment_stage(
                        &self.matches,
                        event_id,
                        rule,
                        rule_match_id,
                        fragment + 1,
                    );
                },
                _ => {
                    self.stage = Stage::Closed(Outcome::AsciiMatchFailed);
                },
            },
            Stage::Commit => match reply {
                Reply::Done => {
                    self.stage = Stage::Closed(Outcome::Committed);
                },
                _ => {
                    self.stage = Stage::Closed(Outcome::CommitFailed);
                },
            },
            Stage::Closed(_) => {},
        }
    }

    fn rule_stage(matches: &Vec<FlatMatch>, event_id: i32, rule: usize) -> (stage: Stage)
        requires
            rule <= matches@.len(),
        ensures
            stage == enter_rule(flat_views(matches@), event_id, rule as int),
            stage_valid(flat_views(matches@), stage),
    {
        if rule < matches.len() {
            Stage::RuleMatch { event_id, rule }
        } else {
            Stage::Commit
        }
    }

    fn fragment_stage(
        matches: &Vec<FlatMatch>,
        event_id: i32,
        rule: usize,
        rule_match_id: i32,
        fragment: usize,
    ) -> (stage: Stage)
        requires
            rule < matches@.len(),
            fragment <= flat_views(matches@)[rule as int].data.len(),
        ensures
            stage == enter_fragment(
                flat_views(matches@),
                event_id,
                rule as int,
                rule_match_id,
                fragment as int,
            ),
            stage_valid(flat_views(matches@), stage),
    {
        let rules = matches.len();
        let data = matches[rule].data();
        assert(texts(data@).len() == data@.len());
        if fragment < data.len() {
            Stage::AsciiMatch { event_id, rule, rule_match_id, fragment }
        } else {
            Self::rule_stage(matches, event_id, rule + 1)
        }
    }
}

/// What the store holds of the rows that one transaction has written.
pub struct Ledger {
    /// The ids of the events that were stored.
    pub events: Set<i32>,
    /// The ids of the rule matches that were stored.
    pub rule_matches: Set<i32>,
    /// The number of rows that were stored, of all three kinds.
    pub rows: nat,
    /// Whether every row that was stored refers to a row that was stored
    /// before it: each rule match to an event, each fragment to a rule match.
    pub intact: bool,
}

/// The ledger of a transaction that has written nothing.
pub open spec fn empty_ledger() -> Ledger {
    Ledger { events: Set::empty(), rule_matches: Set::empty(), rows: 0, intact: true }
}

/// The ledger once `reply` has answered the write of `stage`.
pub open spec fn record(ledger: Ledger, stage: Stage, reply: Reply) -> Ledger {
    match (stage, reply) {
        (Stage::Event, Reply::Stored(assigned)) => Ledger {
            events: match assigned {
                Some(id) => ledger.events.insert(id),
                None => ledger.events,
            },
            rows: ledger.rows + 1,
            ..ledger
        },
        (Stage::RuleMatch { event_id, .. }, Reply::Stored(assigned)) => Ledger {
            rule_matches: match assigned {
                Some(id) => ledger.rule_matches.insert(id),
                None => ledger.rule_matches,
            },
            rows: ledger.rows + 1,
            intact: ledger.intact && ledger.events.contains(event_id),
            ..ledger
        },
        (Stage::AsciiMatch { rule_match_id, .. }, Reply::Stored(_)) => Ledger {
            rows: ledger.rows + 1,
            intact: ledger.intact && ledger.rule_matches.contains(rule_match_id),
            ..ledger
        },
        _ => ledger,
    }
}

/// The stage and the ledger that a job comes to from `stage` and `ledger`
/// when the store gives `replies`, one for each write in turn.
pub open spec fn run(
    matches: Seq<FlatMatchView>,
    stage: Stage,
    ledger: Ledger,
    replies: Seq<Reply>,
) -> (Stage, Ledger)
    decreases replies.len(),
{
    if replies.len() == 0 {
        (stage, ledger)
    } else {
        run(
            matches,
            advance(matches, stage, replies.first()),
            record(ledger, stage, replies.first()),
            replies.drop_first(),
        )
    }
}

/// Whether the ids that a stage carries are ids of rows in the ledger.
pub open spec fn grounded(stage: Stage, ledger: Ledger) -> bool {
    match stage {
        Stage::RuleMatch { event_id, .. } => ledger.events.contains(event_id),
        Stage::AsciiMatch { event_id, rule_match_id, .. } => ledger.events.contains(event_id)
            && ledger.rule_matches.contains(rule_match_id),
        _ => true,
    }
}

/// Whether the matches are few and short enough for a machine to hold.
pub open spec fn countable(matches: Seq<FlatMatchView>) -> bool {
    &&& matches.len() <= usize::MAX
    &&& forall|rule: int| 0 <= rule < matches.len() ==> (#[trigger] matches[rule]).data.len()
        <= usize::MAX
}

/// The number of rows that the matches before number `rule` take: one for
/// each rule match and one for each of its fragments.
pub open spec fn rows_before(matches: Seq<FlatMatchView>, rule: int) -> int
    decreases rule,
{
    if rule <= 0 {
        0
    } else {
        rows_before(matches, rule - 1) + 1 + matches[rule - 1].data.len()
    }
}

/// The place of a stage's write in the order of the transaction: 0 for the
/// event, then the rows of each match, then the commit.
pub open spec fn position(matches: Seq<FlatMatchView>, stage: Stage) -> int {
    match stage {
        Stage::Event => 0,
        Stage::RuleMatch { rule, .. } => 1 + rows_before(matches, rule as int),
        Stage::AsciiMatch { rule, fragment, .. } => 2 + rows_before(matches, rule as int)
            + fragment,
        Stage::Commit => 1 + rows_before(matches, matches.len() as int),
        Stage::Closed(_) => 2 + rows_before(matches, matches.len() as int),
    }
}

/// One answer keeps the references whole: where every row so far refers to
/// a stored row and the stage's ids are ids of stored rows, the same holds
/// after the answer.
pub proof fn lemma_step_keeps_references(
    matches: Seq<FlatMatchView>,
    stage: Stage,
    ledger: Ledger,
    reply: Reply,
)
    requires
        ledger.intact,
        grounded(stage, ledger),
    ensures
        record(ledger, stage, reply).intact,
        grounded(advance(matches, stage, reply), record(ledger, stage, reply)),
{
}

/// Any run keeps the references whole.
pub proof fn lemma_run_keeps_references(
    matches: Seq<FlatMatchView>,
    stage: Stage,
    ledger: Ledger,
    replies: Seq<Reply>,
)
    requires
        ledger.intact,
        grounded(stage, ledger),
    ensures
        run(matches, stage, ledger, replies).1.intact,
        grounded(run(matches, stage, ledger, replies).0, run(matches, stage, ledger, replies).1),
    decreases replies.len(),
{
    if replies.len() > 0 {
        lemma_step_keeps_references(matches, stage, ledger, replies.first());
        lemma_run_keeps_references(
            matches,
            advance(matches, stage, replies.first()),
            record(ledger, stage, replies.first()),
            replies.drop_first(),
        );
    }
}

/// Referential integrity. Whatever the store answers to the writes of a
/// job, every fragment that it stores refers to a rule match that it stored
/// before, and every rule match to an event that it stored before.
pub proof fn lemma_references_hold(matches: Seq<FlatMatchView>, replies: Seq<Reply>)
    ensures
        run(matches, Stage::Event, empty_ledger(), replies).1.intact,
{
    lemma_run_keeps_references(matches, Stage::Event, empty_ledger(), replies);
}

/// The order of the writes. A write that goes through is followed by the
/// write at the next place, so that no row is left out or written twice and
/// the commit comes after all of them; a write that does not go through ends
/// the job without a commit.
pub proof fn lemma_writes_in_order(matches: Seq<FlatMatchView>, stage: Stage, reply: Reply)
    requires
        countable(matches),
        stage_valid(matches, stage),
        !(stage is Closed),
    ensures
        stage_valid(matches, advance(matches, stage, reply)),
        accepted(stage, reply) ==> position(matches, advance(matches, stage, reply)) == position(
            matches,
            stage,
        ) + 1,
        !accepted(stage, reply) ==> advance(matches, stage, reply) is Closed && advance(
            matches,
            stage,
            reply,
        ) != Stage::Closed(Outcome::Committed),
{
    match stage {
        Stage::RuleMatch { rule, .. } => {
            assert(rows_before(matches, rule + 1) == rows_before(matches, rule as int) + 1
                + matches[rule as int].data.len());
        },
        Stage::AsciiMatch { rule, .. } => {
            assert(rows_before(matches, rule + 1) == rows_before(matches, rule as int) + 1
                + matches[rule as int].data.len());
        },
        _ => {},
    }
}

/// The number of rows that a processed event takes: one for the event,
/// one for each match and one for each fragment.
pub open spec fn rows_of(matches: Seq<FlatMatchView>) -> int {
    1 + rows_before(matches, matches.len() as int)
}

/// Whether the ledger holds as many rows as the stage says were written:
/// all of them once the job is committed, and before the job is over as many
/// as there are places before the write that is due.
pub open spec fn counted(matches: Seq<FlatMatchView>, stage: Stage, ledger: Ledger) -> bool {
    match stage {
        Stage::Closed(Outcome::Committed) => ledger.rows == rows_of(matches),
        Stage::Closed(_) => true,
        _ => ledger.rows == position(matches, stage),
    }
}

/// Any run keeps the count of rows in step with the stage.
pub proof fn lemma_run_keeps_count(
    matches: Seq<FlatMatchView>,
    stage: Stage,
    ledger: Ledger,
    replies: Seq<Reply>,
)
    requires
        countable(matches),
        stage_valid(matches, stage),
        counted(matches, stage, ledger),
    ensures
        counted(
            matches,
            run(matches, stage, ledger, replies).0,
            run(matches, stage, ledger, replies).1,
        ),
    decreases replies.len(),
{
    if replies.len() > 0 {
        let reply = replies.first();
        if !(stage is Closed) {
            lemma_writes_in_order(matches, stage, reply);
        }
        lemma_run_keeps_count(
            matches,
            advance(matches, stage, reply),
            record(ledger, stage, reply),
            replies.drop_first(),
        );
    }
}

/// All or nothing. Whatever the store answers, a job that ends as
/// committed has stored the event, every rule match and every fragment, each
/// of them once.
pub proof fn lemma_committed_means_complete(matches: Seq<FlatMatchView>, replies: Seq<Reply>)
    requires
        countable(matches),
        run(matches, Stage::Event, empty_ledger(), replies).0 == Stage::Closed(
            Outcome::Committed,
        ),
    ensures
        run(matches, Stage::Event, empty_ledger(), replies).1.rows == rows_of(matches),
{
    lemma_run_keeps_count(matches, Stage::Event, empty_ledger(), replies);
}

/// Whether each of the replies says that the write that it answers went
/// through, when they are given one after the other from `stage` on.
pub open spec fn accepting(matches: Seq<FlatMatchView>, stage: Stage, replies: Seq<Reply>) -> bool
    decreases replies.len(),
{
    replies.len() == 0 || (accepted(stage, replies.first()) && accepting(
        matches,
        advance(matches, stage, replies.first()),
        replies.drop_first(),
    ))
}

/// The rows before a later match are at least as many as those before an
/// earlier one, and one more for each match between them.
pub proof fn lemma_rows_before_grows(matches: Seq<FlatMatchView>, earlier: int, later: int)
    requires
        0 <= earlier <= later,
    ensures
        rows_before(matches, earlier) + (later - earlier) <= rows_before(matches, later),
    decreases later - earlier,
{
    if earlier < later {
        lemma_rows_before_grows(matches, earlier, later - 1);
    }
}

/// A store that accepts every write gets every write: from any stage, as
/// many accepting replies as there are writes left, the commit among them,
/// end the job as committed.
pub proof fn lemma_accepting_store_commits(
    matches: Seq<FlatMatchView>,
    stage: Stage,
    ledger: Ledger,
    replies: Seq<Reply>,
)
    requires
        countable(matches),
        stage_valid(matches, stage),
        !(stage is Closed),
        accepting(matches, stage, replies),
        replies.len() == rows_of(matches) + 1 - position(matches, stage),
    ensures
        run(matches, stage, ledger, replies).0 == Stage::Closed(Outcome::Committed),
    decreases replies.len(),
{
    match stage {
        Stage::RuleMatch { rule, .. } => {
            lemma_rows_before_grows(matches, rule + 1, matches.len() as int);
            assert(rows_before(matches, rule + 1) == rows_before(matches, rule as int) + 1
                + matches[rule as int].data.len());
        },
        Stage::AsciiMatch { rule, .. } => {
            lemma_rows_before_grows(matches, rule + 1, matches.len() as int);
            assert(rows_before(matches, rule + 1) == rows_before(matches, rule as int) + 1
                + matches[rule as int].data.len());
        },
        _ => {},
    }
    lemma_rows_before_grows(matches, 0, matches.len() as int);
    assert(position(matches, stage) <= rows_of(matches));
    assert(replies.len() >= 1);
    let reply = replies.first();
    let next = advance(matches, stage, reply);
    lemma_writes_in_order(matches, stage, reply);
    if stage == Stage::Commit {
        assert(replies.drop_first().len() == 0);
        assert(run(matches, next, record(ledger, stage, reply), replies.drop_first()).0 == next);
    } else {
        lemma_accepting_store_commits(
            matches,
            next,
            record(ledger, stage, reply),
            replies.drop_first(),
        );
    }
}

} // verus!
