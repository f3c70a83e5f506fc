//! Scanning events against the rules, and counting what was scanned.
//!
//! A processor owns the compiled rules and turns the text of an event into
//! flat matches. A worker counts its events in a [`Stats`] of its own; an
//! event on which a rule fired becomes a processed event and goes on to be
//! loaded, any other event is dropped.
use crate::engine::{
    all_takeable, compiler_includes, compiler_sources, engine_can_take, is_high_hex_digit,
    rules_sources, scan, BACKSLASH, LETTER_X,
};
use crate::entities::event::Event;
use crate::entities::flat_match::{
    all_taken_from, flat_views, flatten_hit, flatten_hits, fragments_occur_in, hit_views,
    lemma_fragments_occur, FlatMatch, RuleHit, RuleHitView,
};
use crate::entities::processed_event::{ProcessedEvent, ProcessedEventView};
use crate::errors::ConfigurationError;
use crate::utils::texts;
use std::time::Duration;
use vstd::prelude::*;
use vstd::string::*;
use vstd::utf8::*;
use yara::{Compiler, Rules, YaraError};

verus! {

/// The number of seconds after which the engine gives up on one event.
pub const SCAN_TIMEOUT_SECS: i32 = 10;

/// Why no processor could be built.
#[derive(Debug)]
pub enum ProcessorError {
    /// The configuration leaves the processor without rules.
    Configuration(ConfigurationError),
    /// A rule's text is not plain: it holds a character that is not
    /// ASCII, a NUL, or an escape for a byte that is not ASCII. The engine
    /// is not given such a text.
    RuleNotPlain,
    /// The engine refused a rule.
    RuleCompile(yara::Error),
    /// The engine could not be set up or could not finish its work.
    Engine(YaraError),
}

/// The compiled rules and what scans with them. The rules were compiled
/// from plain texts.
pub struct Processor {
    engine: Rules,
}

impl Processor {
    #[verifier::type_invariant]
    spec fn built_from_plain_texts(self) -> bool {
        all_takeable(rules_sources(self.engine))
    }

    /// The rule texts that the processor was built from.
    pub closed spec fn sources(self) -> Seq<Seq<char>> {
        rules_sources(self.engine)
    }

    /// Builds a processor from the texts of the rule files that were
    /// found. Without any file there is nothing to scan with, and that is an
    /// error.
    pub fn with_rule_files(sources: Vec<String>) -> (built: Result<Processor, ProcessorError>)
        ensures
            sources@.len() == 0 ==> built matches Err(
                ProcessorError::Configuration(ConfigurationError::NoYaraRulesError),
            ),
            sources@.len() > 0 && !all_takeable(texts(sources@)) ==> built matches Err(
                ProcessorError::RuleNotPlain,
            ),
            sources@.len() > 0 && all_takeable(texts(sources@)) ==> match built {
                Ok(processor) => processor.sources() == texts(sources@),
                Err(error) => error is RuleCompile || error is Engine,
            },
    {
        if sources.len() == 0 {
            return Err(ProcessorError::Configuration(ConfigurationError::NoYaraRulesError));
        }
        Processor::with_rules(sources)
    }

    /// Builds a processor from the text of one rule.
    pub fn with_rule_str(rule: &str) -> (built: Result<Processor, ProcessorError>)
        ensures
            !engine_can_take(rule@) ==> built matches Err(ProcessorError::RuleNotPlain),
            engine_can_take(rule@) ==> match built {
                Ok(processor) => processor.sources() == seq![rule@],
                Err(error) => error is RuleCompile || error is Engine,
            },
    {
        let mut rules: Vec<String> = Vec::new();
        rules.push(rule.to_owned());
        proof {
            assert(texts(rules@) =~= seq![rule@]);
            assert(texts(rules@)[0] == rule@);
        }
        Processor::with_rules(rules)
    }

    /// Builds a processor from rule texts: all of them are compiled, in
    /// their order, into one set of rules. A text that is not plain is
    /// refused before the engine sees any of them, and `include` is switched
    /// off: the engine reads nothing but the texts.
    pub fn with_rules(rules: Vec<String>) -> (built: Result<Processor, ProcessorError>)
        ensures
            !all_takeable(texts(rules@)) ==> built matches Err(ProcessorError::RuleNotPlain),
            all_takeable(texts(rules@)) ==> match built {
                Ok(processor) => processor.sources() == texts(rules@),
                Err(error) => error is RuleCompile || error is Engine,
            },
    {
        let mut i: usize = 0;
        while i < rules.len()
            invariant
                i <= rules.len(),
                forall|j: int| 0 <= j < i ==> engine_can_take(#[trigger] texts(rules@)[j]),
            decreases rules.len() - i,
        {
            if !can_take(rules[i].as_str()) {
                assert(!engine_can_take(texts(rules@)[i as int]));
                return Err(ProcessorError::RuleNotPlain);
            }
            i += 1;
        }
        let mut compiler = match Compiler::new() {
            Ok(compiler) => compiler,
            Err(error) => return Err(ProcessorError::Engine(error)),
        };
        compiler.disable_include_directive();
        let mut i: usize = 0;
        while i < rules.len()
            invariant
                i <= rules.len(),
                all_takeable(texts(rules@)),
                !compiler_includes(compiler),
                compiler_sources(compiler) == texts(rules@).take(i as int),
            decreases rules.len() - i,
        {
            assert(engine_can_take(texts(rules@)[i as int]));
            compiler = match compiler.add_rules_str(rules[i].as_str()) {
                Ok(grown) => grown,
                Err(error) => return Err(ProcessorError::RuleCompile(error)),
            };
            proof {
                assert(texts(rules@).take(i + 1) =~= texts(rules@).take(i as int).push(
                    rules@[i as int]@,
                ));
            }
            i += 1;
        }
        proof {
            assert(texts(rules@).take(i as int) =~= texts(rules@));
        }
        match compiler.compile_rules() {
            Ok(engine) => Ok(Processor { engine }),
            Err(error) => Err(ProcessorError::Engine(error)),
        }
    }

    /// Scans a text with the rules and hands out what the engine reports,
    /// one hit for each rule that fired, with the bytes of every match. The
    /// engine gives up after [`SCAN_TIMEOUT_SECS`] seconds; then, and when
    /// it fails otherwise, the result is its error. Every match is a run of
    /// the bytes of the text.
    pub fn scan(&self, filestr: &str) -> (hits: Result<Vec<RuleHit>, YaraError>)
        ensures
            hits matches Ok(found) ==> all_taken_from(hit_views(found@), encode_utf8(filestr@)),
    {
        proof {
            use_type_invariant(self);
        }
        scan(&self.engine, filestr, SCAN_TIMEOUT_SECS)
    }

    /// Scans a text with the rules and condenses what the engine reports,
    /// one flat match for each rule that fired. The engine gives up after
    /// [`SCAN_TIMEOUT_SECS`] seconds; then, and when it fails otherwise, the
    /// result is its error. Every fragment of every match occurs in the
    /// text.
    pub fn process(&self, filestr: &str) -> (matches: Result<Vec<FlatMatch>, YaraError>)
        ensures
            matches matches Ok(found) ==> exists|hits: Seq<RuleHitView>|
                flat_views(found@) == #[trigger] flatten_hits(hits) && all_taken_from(
                    hits,
                    encode_utf8(filestr@),
                ),
            matches matches Ok(found) ==> forall|k: int|
                0 <= k < found@.len() ==> fragments_occur_in(#[trigger] found@[k]@, filestr@),
    {
        match self.scan(filestr) {
            Ok(rules) => {
                let ghost hits = hit_views(rules@);
                let found = FlatMatch::from_rules(rules);
                proof {
                    assert forall|k: int| 0 <= k < found@.len() implies fragments_occur_in(
                        #[trigger] found@[k]@,
                        filestr@,
                    ) by {
                        assert(flat_views(found@).len() == found@.len());
                        assert(flatten_hits(hits).len() == hits.len());
                        assert(flat_views(found@)[k] == found@[k]@);
                        assert(flatten_hits(hits)[k] == flatten_hit(hits[k]));
                        lemma_fragments_occur(hits[k], filestr@);
                    }
                }
                Ok(found)
            },
            Err(error) => Err(error),
        }
    }
}

fn high_hex_digit(byte: u8) -> (high: bool)
    ensures
        high == is_high_hex_digit(byte),
{
    byte == 56 || byte == 57 || (97 <= byte && byte <= 102) || (65 <= byte && byte <= 70)
}

/// Whether a rule text is plain, so that the engine can be given it.
pub fn can_take(text: &str) -> (takeable: bool)
    ensures
        takeable == engine_can_take(text@),
{
    let bytes = text.as_bytes();
    let mut i: usize = 0;
    while i < bytes.len()
        invariant
            i <= bytes.len(),
            bytes@ == encode_utf8(text@),
            forall|j: int| 0 <= j < i ==> 1 <= #[trigger] bytes@[j] <= 127,
            forall|j: int|
                0 <= j < i && j + 2 < bytes@.len() ==> !(#[trigger] bytes@[j] == BACKSLASH
                    && bytes@[j + 1] == LETTER_X && is_high_hex_digit(bytes@[j + 2])),
        decreases bytes.len() - i,
    {
        let byte = bytes[i];
        if byte == 0 || byte > 127 {
            return false;
        }
        if byte == BACKSLASH && bytes.len() - i > 2 {
            if bytes[i + 1] == LETTER_X && high_hex_digit(bytes[i + 2]) {
                return false;
            }
        }
        i += 1;
    }
    true
}

/// The number of nanoseconds in a second.
pub const NANOS_PER_SEC: u128 = 1_000_000_000;

/// The number of nanoseconds of a duration, as `Duration::as_nanos` gives
/// it.
pub uninterp spec fn duration_nanos(duration: Duration) -> nat;

/// The longest time that a `Duration` made of whole seconds and a part of
/// a second can hold, in nanoseconds: `u64::MAX` seconds and just under one
/// more.
pub const LONGEST_DURATION_NANOS: u128 = 18_446_744_073_709_551_615_999_999_999;

/// `Duration::as_nanos`: the whole duration in nanoseconds.
pub assume_specification[ Duration::as_nanos ](duration: &Duration) -> (nanos: u128)
    ensures
        nanos == duration_nanos(*duration),
;

/// `Duration::new`: the duration of `secs` seconds and `nanos`
/// nanoseconds. With a billion nanoseconds or more it carries into the
/// seconds and may panic, which `requires` leaves out.
pub assume_specification[ Duration::new ](secs: u64, nanos: u32) -> (duration: Duration)
    requires
        nanos < 1_000_000_000,
    ensures
        duration_nanos(duration) == secs * 1_000_000_000 + nanos,
;

/// What a [`Stats`] holds.
pub struct StatsView {
    /// The time spent on events, in nanoseconds.
    pub overall_nanos: nat,
    /// The number of events that were scanned.
    pub num_events: nat,
    /// The number of events on which a rule fired.
    pub num_matches: nat,
    /// The number of processed events that could not be sent on.
    pub num_failures: nat,
}

impl StatsView {
    /// Whether the counters can be those of a worker: no more matches than
    /// events, and no more failures than matches.
    pub open spec fn consistent(self) -> bool {
        self.num_failures <= self.num_matches <= self.num_events
    }

    /// The average time spent on an event, in nanoseconds; zero where
    /// there was no event.
    pub open spec fn avg_nanos(self) -> nat {
        if self.num_events == 0 {
            0
        } else {
            self.overall_nanos / self.num_events
        }
    }

    /// The counters after one more event, on which a rule fired or not.
    pub open spec fn with_event(self, matched: bool) -> StatsView {
        StatsView {
            num_events: self.num_events + 1,
            num_matches: if matched {
                self.num_matches + 1
            } else {
                self.num_matches
            },
            ..self
        }
    }
}

/// The counters of a worker that has done nothing yet.
pub open spec fn fresh_stats() -> StatsView {
    StatsView { overall_nanos: 0, num_events: 0, num_matches: 0, num_failures: 0 }
}

/// Whether a scan found something to store: it ended well and a rule fired.
pub open spec fn matched(outcome: Option<Vec<FlatMatch>>) -> bool {
    outcome matches Some(found) && found@.len() >= 1
}

/// The counters of one processor worker.
#[derive(Debug)]
pub struct Stats {
    overall_nanos: u128,
    num_events: u32,
    num_matches: u32,
    num_failures: u32,
}

impl View for Stats {
    type V = StatsView;

    closed spec fn view(&self) -> StatsView {
        StatsView {
            overall_nanos: self.overall_nanos as nat,
            num_events: self.num_events as nat,
            num_matches: self.num_matches as nat,
            num_failures: self.num_failures as nat,
        }
    }
}

impl Stats {
    #[verifier::type_invariant]
    spec fn holds_a_duration(self) -> bool {
        self.overall_nanos <= LONGEST_DURATION_NANOS
    }

    /// The counters of a worker that has done nothing yet.
    pub fn new() -> (stats: Self)
        ensures
            stats@ == fresh_stats(),
    {
        Self { overall_nanos: 0, num_events: 0, num_matches: 0, num_failures: 0 }
    }

    /// Adds the time spent on one event.
    pub fn add_duration(&mut self, elapsed: Duration)
        requires
            old(self)@.overall_nanos + duration_nanos(elapsed) <= LONGEST_DURATION_NANOS,
        ensures
            final(self)@ == (StatsView {
                overall_nanos: old(self)@.overall_nanos + duration_nanos(elapsed),
                ..old(self)@
            }),
    {
        self.overall_nanos = self.overall_nanos + elapsed.as_nanos();
    }

    /// Adds the time spent on one event, where the sum is a time that a
    /// `Duration` can hold. Says whether it did; where it did not, nothing
    /// is changed.
    pub fn try_add_duration(&mut self, elapsed: Duration) -> (added: bool)
        ensures
            added == (old(self)@.overall_nanos + duration_nanos(elapsed)
                <= LONGEST_DURATION_NANOS),
            final(self)@ == (if added {
                StatsView {
                    overall_nanos: old(self)@.overall_nanos + duration_nanos(elapsed),
                    ..old(self)@
                }
            } else {
                old(self)@
            }),
    {
        proof {
            use_type_invariant(&*self);
        }
        let nanos = elapsed.as_nanos();
        if nanos <= LONGEST_DURATION_NANOS && self.overall_nanos <= LONGEST_DURATION_NANOS
            - nanos {
            self.add_duration(elapsed);
            true
        } else {
            false
        }
    }

    /// Counts one event.
    pub fn inc_events(&mut self)
        requires
            old(self)@.num_events < u32::MAX,
        ensures
            final(self)@ == (StatsView { num_events: old(self)@.num_events + 1, ..old(self)@ }),
    {
        proof {
            use_type_invariant(&*self);
        }
        self.num_events = self.num_events + 1;
    }

    /// Counts one event on which a rule fired.
    pub fn inc_matches(&mut self)
        requires
            old(self)@.num_matches < u32::MAX,
        ensures
            final(self)@ == (StatsView { num_matches: old(self)@.num_matches + 1, ..old(self)@ }),
    {
        proof {
            use_type_invariant(&*self);
        }
        self.num_matches = self.num_matches + 1;
    }

    /// Counts one processed event that could not be sent on.
    pub fn inc_failures(&mut self)
        requires
            old(self)@.num_failures < u32::MAX,
        ensures
            final(self)@ == (StatsView {
                num_failures: old(self)@.num_failures + 1,
                ..old(self)@
            }),
    {
        proof {
            use_type_invariant(&*self);
        }
        self.num_failures = self.num_failures + 1;
    }

    /// Counts one event with the outcome of its scan (`None` where the scan
    /// failed) and joins the event to its matches. An event on which no rule
    /// fired, or whose scan failed, is dropped.
    pub fn observe(&mut self, event: Event, outcome: Option<Vec<FlatMatch>>) -> (processed: Option<
        ProcessedEvent,
    >)
        requires
            old(self)@.num_events < u32::MAX,
            old(self)@.num_matches < u32::MAX,
        ensures
            final(self)@ == old(self)@.with_event(matched(outcome)),
            old(self)@.consistent() ==> final(self)@.consistent(),
            processed is Some <==> matched(outcome),
            processed matches Some(p) ==> p@ == (ProcessedEventView {
                event: event@,
                matches: flat_views(outcome->0@),
            }),
    {
        self.inc_events();
        match outcome {
            Some(found) => match ProcessedEvent::new(event, found) {
                Some(processed) => {
                    self.inc_matches();
                    Some(processed)
                },
                None => None,
            },
            None => None,
        }
    }

    /// The time spent on events.
    pub fn overall_proc_time(&self) -> (time: Duration)
        ensures
            duration_nanos(time) == self@.overall_nanos,
    {
        proof {
            use_type_invariant(self);
        }
        nanos_to_duration(self.overall_nanos)
    }

    /// The average time spent on an event; zero where there was no event.
    pub fn avg_proc_time(&self) -> (time: Duration)
        ensures
            duration_nanos(time) == self@.avg_nanos(),
    {
        proof {
            use_type_invariant(self);
        }
        if self.num_events == 0 {
            return nanos_to_duration(0);
        }
        let events = self.num_events as u128;
        let average = self.overall_nanos / events;
        assert(average <= self.overall_nanos) by (nonlinear_arith)
            requires
                average == self.overall_nanos / events,
                events >= 1,
        ;
        nanos_to_duration(average)
    }

    pub fn num_events(&self) -> (count: u32)
        ensures
            count == self@.num_events,
    {
        self.num_events
    }

    pub fn num_matches(&self) -> (count: u32)
        ensures
            count == self@.num_matches,
    {
        self.num_matches
    }

    pub fn num_failures(&self) -> (count: u32)
        ensures
            count == self@.num_failures,
    {
        self.num_failures
    }
}

fn nanos_to_duration(nanos: u128) -> (duration: Duration)
    requires
        nanos <= LONGEST_DURATION_NANOS,
    ensures
        duration_nanos(duration) == nanos,
{
    let secs = nanos / NANOS_PER_SEC;
    let rest = nanos % NANOS_PER_SEC;
    Duration::new(secs as u64, rest as u32)
}

/// The counters of a worker that began with `stats` and then took
/// `events`, each of which says whether a rule fired on it.
pub open spec fn after_events(stats: StatsView, events: Seq<bool>) -> StatsView
    decreases events.len(),
{
    if events.len() == 0 {
        stats
    } else {
        after_events(stats, events.drop_last()).with_event(events.last())
    }
}

/// A worker counts every event that it takes, and never more matches than
/// events: after any run from a fresh start, the number of events is the
/// number that were taken, and the counters are consistent.
pub proof fn lemma_every_event_is_counted(events: Seq<bool>)
    ensures
        after_events(fresh_stats(), events).num_events == events.len(),
        after_events(fresh_stats(), events).num_matches == events.filter(|fired: bool| fired).len(),
        after_events(fresh_stats(), events).num_failures == 0,
        after_events(fresh_stats(), events).consistent(),
    decreases events.len(),
{
    reveal(Seq::filter);
    if events.len() > 0 {
        lemma_every_event_is_counted(events.drop_last());
        events.drop_last().lemma_filter_len(|fired: bool| fired);
    }
}

/// The number of events that all the workers scanned.
pub open spec fn total_events(workers: Seq<StatsView>) -> nat
    decreases workers.len(),
{
    if workers.len() == 0 {
        0
    } else {
        total_events(workers.drop_last()) + workers.last().num_events
    }
}

/// The number of events, over all the workers, on which a rule fired.
pub open spec fn total_matches(workers: Seq<StatsView>) -> nat
    decreases workers.len(),
{
    if workers.len() == 0 {
        0
    } else {
        total_matches(workers.drop_last()) + workers.last().num_matches
    }
}

/// Over all the workers there are no more matches than events.
pub proof fn lemma_matched_at_most_processed(workers: Seq<StatsView>)
    requires
        forall|i: int| 0 <= i < workers.len() ==> (#[trigger] workers[i]).consistent(),
    ensures
        total_matches(workers) <= total_events(workers),
    decreases workers.len(),
{
    if workers.len() > 0 {
        lemma_matched_at_most_processed(workers.drop_last());
        assert(workers.last() == workers[workers.len() - 1]);
    }
}

/// What a [`Summary`] holds.
pub struct SummaryView {
    /// The number of workers whose counters were added.
    pub workers: nat,
    /// The time that they spent on events, in nanoseconds.
    pub overall_nanos: nat,
    /// The number of events that they scanned.
    pub num_events: nat,
    /// The number of events on which a rule fired.
    pub num_matches: nat,
    /// The number of processed events that could not be sent on.
    pub num_failures: nat,
}

impl SummaryView {
    /// The summary with the counters of one more worker.
    pub open spec fn plus(self, stats: StatsView) -> SummaryView {
        SummaryView {
            workers: self.workers + 1,
            overall_nanos: self.overall_nanos + stats.overall_nanos,
            num_events: self.num_events + stats.num_events,
            num_matches: self.num_matches + stats.num_matches,
            num_failures: self.num_failures + stats.num_failures,
        }
    }
}

/// The summary of no worker.
pub open spec fn empty_summary() -> SummaryView {
    SummaryView { workers: 0, overall_nanos: 0, num_events: 0, num_matches: 0, num_failures: 0 }
}

/// The summary of the given workers.
pub open spec fn summary_of(workers: Seq<StatsView>) -> SummaryView
    decreases workers.len(),
{
    if workers.len() == 0 {
        empty_summary()
    } else {
        summary_of(workers.drop_last()).plus(workers.last())
    }
}

/// A summary holds the sums over its workers, and so no more matches than
/// events where that holds of each worker.
pub proof fn lemma_summary_sums(workers: Seq<StatsView>)
    ensures
        summary_of(workers).workers == workers.len(),
        summary_of(workers).num_events == total_events(workers),
        summary_of(workers).num_matches == total_matches(workers),
        (forall|i: int| 0 <= i < workers.len() ==> (#[trigger] workers[i]).consistent())
            ==> summary_of(workers).num_matches <= summary_of(workers).num_events,
    decreases workers.len(),
{
    if workers.len() > 0 {
        lemma_summary_sums(workers.drop_last());
        if forall|i: int| 0 <= i < workers.len() ==> (#[trigger] workers[i]).consistent() {
            lemma_matched_at_most_processed(workers);
        }
    }
}

/// The counters of all the processor workers together.
#[derive(Debug)]
pub struct Summary {
    workers: u32,
    overall_nanos: u128,
    num_events: u64,
    num_matches: u64,
    num_failures: u64,
}

impl View for Summary {
    type V = SummaryView;

    closed spec fn view(&self) -> SummaryView {
        SummaryView {
            workers: self.workers as nat,
            overall_nanos: self.overall_nanos as nat,
            num_events: self.num_events as nat,
            num_matches: self.num_matches as nat,
            num_failures: self.num_failures as nat,
        }
    }
}

impl Summary {
    #[verifier::type_invariant]
    spec fn within_bounds(self) -> bool {
        &&& self.overall_nanos <= self.workers * LONGEST_DURATION_NANOS
        &&& self.num_events <= self.workers * u32::MAX
        &&& self.num_matches <= self.workers * u32::MAX
        &&& self.num_failures <= self.workers * u32::MAX
    }

    /// The summary of no worker.
    pub fn new() -> (summary: Self)
        ensures
            summary@ == empty_summary(),
    {
        Self { workers: 0, overall_nanos: 0, num_events: 0, num_matches: 0, num_failures: 0 }
    }

    /// Adds the counters of one worker that has joined.
    pub fn absorb(&mut self, stats: &Stats)
        requires
            old(self)@.workers < u32::MAX,
        ensures
            final(self)@ == old(self)@.plus(stats@),
            old(self)@.num_matches <= old(self)@.num_events && stats@.consistent()
                ==> final(self)@.num_matches <= final(self)@.num_events,
    {
        proof {
            use_type_invariant(&*self);
            use_type_invariant(stats);
        }
        let joined = Summary {
            workers: self.workers + 1,
            overall_nanos: self.overall_nanos + stats.overall_nanos,
            num_events: self.num_events + stats.num_events as u64,
            num_matches: self.num_matches + stats.num_matches as u64,
            num_failures: self.num_failures + stats.num_failures as u64,
        };
        *self = joined;
    }

    /// The number of workers whose counters were added.
    pub fn workers(&self) -> (count: u32)
        ensures
            count == self@.workers,
    {
        self.workers
    }

    /// The time that the workers spent on events, in nanoseconds.
    pub fn overall_nanos(&self) -> (nanos: u128)
        ensures
            nanos == self@.overall_nanos,
    {
        self.overall_nanos
    }

    pub fn num_events(&self) -> (count: u64)
        ensures
            count == self@.num_events,
    {
        self.num_events
    }

    pub fn num_matches(&self) -> (count: u64)
        ensures
            count == self@.num_matches,
    {
        self.num_matches
    }

    pub fn num_failures(&self) -> (count: u64)
        ensures
            count == self@.num_failures,
    {
        self.num_failures
    }
}

} // verus!
