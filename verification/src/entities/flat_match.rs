//! One rule firing on one event, condensed to what is stored of it.
use crate::utils::{byte_runs, clone_bytes, texts};
use vstd::prelude::*;
use vstd::string::*;
use vstd::utf8::*;

verus! {

/// What the engine reports of one rule that matched: the plain values of a
/// `yara::Rule` that this library reads.
#[derive(Debug)]
pub struct RuleHit {
    /// The namespace that the rule was compiled in.
    pub namespace: String,
    /// The rule's name.
    pub identifier: String,
    /// The rule's tags, in the engine's order.
    pub tags: Vec<String>,
    /// For each string of the rule, the bytes of each of its matches.
    pub strings: Vec<Vec<Vec<u8>>>,
}

/// What a [`RuleHit`] holds.
pub struct RuleHitView {
    pub namespace: Seq<char>,
    pub identifier: Seq<char>,
    pub tags: Seq<Seq<char>>,
    pub strings: Seq<Seq<Seq<u8>>>,
}

impl View for RuleHit {
    type V = RuleHitView;

    open spec fn view(&self) -> RuleHitView {
        RuleHitView {
            namespace: self.namespace@,
            identifier: self.identifier@,
            tags: texts(self.tags@),
            strings: self.strings.deep_view(),
        }
    }
}

/// What a [`FlatMatch`] holds.
pub struct FlatMatchView {
    /// The rule's qualified name, `<namespace>::<identifier>`.
    pub rule_name: Seq<char>,
    /// The rule's tags.
    pub tags: Seq<Seq<char>>,
    /// The matched fragments, in the order in which they were found.
    pub data: Seq<Seq<char>>,
}

/// One rule firing on one event.
#[derive(Debug)]
pub struct FlatMatch {
    rule_name: String,
    tags: Vec<String>,
    data: Vec<String>,
}

impl View for FlatMatch {
    type V = FlatMatchView;

    closed spec fn view(&self) -> FlatMatchView {
        FlatMatchView {
            rule_name: self.rule_name@,
            tags: texts(self.tags@),
            data: texts(self.data@),
        }
    }
}

/// The views of a sequence of flat matches, in the same order.
pub open spec fn flat_views(matches: Seq<FlatMatch>) -> Seq<FlatMatchView> {
    matches.map_values(|m: FlatMatch| m@)
}

/// The views of a sequence of rule hits, in the same order.
pub open spec fn hit_views(hits: Seq<RuleHit>) -> Seq<RuleHitView> {
    hits.map_values(|h: RuleHit| h@)
}

/// Whether `run` stands in `bytes`, byte for byte, at some place.
pub open spec fn is_run_of(run: Seq<u8>, bytes: Seq<u8>) -> bool {
    exists|start: int|
        0 <= start && start + run.len() <= bytes.len() && #[trigger] bytes.subrange(
            start,
            start + run.len(),
        ) == run
}

/// Whether every match of a rule hit is a run of `bytes`.
pub open spec fn taken_from(hit: RuleHitView, bytes: Seq<u8>) -> bool {
    forall|s: int, m: int|
        0 <= s < hit.strings.len() && 0 <= m < hit.strings[s].len() ==> is_run_of(
            #[trigger] hit.strings[s][m],
            bytes,
        )
}

/// Whether every match of every rule hit is a run of `bytes`.
pub open spec fn all_taken_from(hits: Seq<RuleHitView>, bytes: Seq<u8>) -> bool {
    forall|h: int| 0 <= h < hits.len() ==> taken_from(#[trigger] hits[h], bytes)
}

/// Whether every fragment of a flat match occurs in `text`.
pub open spec fn fragments_occur_in(flat: FlatMatchView, text: Seq<char>) -> bool {
    forall|k: int|
        0 <= k < flat.data.len() ==> is_run_of(
            encode_utf8(#[trigger] flat.data[k]),
            encode_utf8(text),
        )
}

/// The text of a matched run of bytes, where the run is not empty and its
/// bytes are valid UTF-8.
pub open spec fn fragment_text(run: Seq<u8>) -> Option<Seq<char>> {
    if run.len() > 0 && valid_utf8(run) {
        Some(decode_utf8(run))
    } else {
        None
    }
}

/// The fragments that are kept of a list of matched runs: those that are
/// not empty and are valid UTF-8, decoded, in their order.
pub open spec fn fragments(runs: Seq<Seq<u8>>) -> Seq<Seq<char>> {
    runs.filter_map(|run: Seq<u8>| fragment_text(run))
}

/// The qualified name of a rule.
pub open spec fn qualified_name(namespace: Seq<char>, identifier: Seq<char>) -> Seq<char> {
    namespace + "::"@ + identifier
}

/// The flat form of one rule hit: the matches of all its strings in one
/// list, a string without matches adding nothing.
pub open spec fn flatten_hit(hit: RuleHitView) -> FlatMatchView {
    FlatMatchView {
        rule_name: qualified_name(hit.namespace, hit.identifier),
        tags: hit.tags,
        data: fragments(hit.strings.flatten()),
    }
}

/// The flat forms of a list of rule hits, one for each, in the same order.
pub open spec fn flatten_hits(hits: Seq<RuleHitView>) -> Seq<FlatMatchView> {
    hits.map_values(|hit: RuleHitView| flatten_hit(hit))
}

/// What holds of every part of a list of lists holds of every item of the
/// lists laid end to end.
pub proof fn lemma_flatten_keeps<A>(lists: Seq<Seq<A>>, holds: spec_fn(A) -> bool)
    requires
        forall|s: int, m: int|
            0 <= s < lists.len() && 0 <= m < lists[s].len() ==> holds(#[trigger] lists[s][m]),
    ensures
        forall|j: int| 0 <= j < lists.flatten().len() ==> holds(#[trigger] lists.flatten()[j]),
    decreases lists.len(),
{
    if lists.len() > 0 {
        let rest = lists.drop_first();
        assert forall|s: int, m: int|
            0 <= s < rest.len() && 0 <= m < rest[s].len() implies holds(
            #[trigger] rest[s][m],
        ) by {
            assert(rest[s] == lists[s + 1]);
        }
        lemma_flatten_keeps(rest, holds);
        assert forall|j: int| 0 <= j < lists.flatten().len() implies holds(
            #[trigger] lists.flatten()[j],
        ) by {
            if j < lists.first().len() {
                assert(lists.flatten()[j] == lists[0][j]);
            } else {
                assert(lists.flatten()[j] == rest.flatten()[j - lists.first().len()]);
            }
        }
    }
}

/// Every fragment that is kept of a list of runs is the text of one of the
/// runs.
pub proof fn lemma_fragment_has_its_run(runs: Seq<Seq<u8>>, k: int)
    requires
        0 <= k < fragments(runs).len(),
    ensures
        exists|j: int|
            0 <= j < runs.len() && valid_utf8(#[trigger] runs[j]) && encode_utf8(
                fragments(runs)[k],
            ) == runs[j],
{
    let kept = fragments(runs);
    let text_of_run = |run: Seq<u8>| fragment_text(run);
    assert(kept.contains(kept[k]));
    runs.lemma_filter_map_contains(text_of_run, kept[k]);
    let run = choose|run: Seq<u8>| #[trigger] runs.contains(run) && text_of_run(run) == Some(kept[k]);
    let j = choose|j: int| 0 <= j < runs.len() && runs[j] == run;
    decode_utf8_encode_utf8(run);
    assert(encode_utf8(kept[k]) == runs[j]);
}

/// Nothing is made up: where every match of a rule hit is a run of the
/// bytes of a text, every fragment of its flat form occurs in the text.
pub proof fn lemma_fragments_occur(hit: RuleHitView, text: Seq<char>)
    requires
        taken_from(hit, encode_utf8(text)),
    ensures
        fragments_occur_in(flatten_hit(hit), text),
{
    let bytes = encode_utf8(text);
    let runs = hit.strings.flatten();
    lemma_flatten_keeps(hit.strings, |run: Seq<u8>| is_run_of(run, bytes));
    assert forall|k: int| 0 <= k < fragments(runs).len() implies is_run_of(
        encode_utf8(#[trigger] fragments(runs)[k]),
        bytes,
    ) by {
        lemma_fragment_has_its_run(runs, k);
        let j = choose|j: int|
            0 <= j < runs.len() && valid_utf8(#[trigger] runs[j]) && encode_utf8(
                fragments(runs)[k],
            ) == runs[j];
        assert(is_run_of(runs[j], bytes));
    }
}

impl FlatMatch {
    /// The places of the runs that are no valid UTF-8 and so are left out
    /// of a flat match, in rising order.
    pub fn undecodable(matches: &[Vec<u8>]) -> (indices: Vec<usize>)
        ensures
            forall|k: int| 0 <= k < indices@.len() ==> indices@[k] < matches@.len(),
            forall|k: int, l: int| 0 <= k < l < indices@.len() ==> indices@[k] < indices@[l],
            forall|i: int|
                0 <= i < matches@.len() ==> (indices@.contains(i as usize) <==> !valid_utf8(
                    matches@[i]@,
                )),
    {
        let mut indices: Vec<usize> = Vec::new();
        let mut i: usize = 0;
        while i < matches.len()
            invariant
                i <= matches.len(),
                forall|k: int| 0 <= k < indices@.len() ==> indices@[k] < i,
                forall|k: int, l: int| 0 <= k < l < indices@.len() ==> indices@[k] < indices@[l],
                forall|j: int|
                    0 <= j < i ==> (indices@.contains(j as usize) <==> !valid_utf8(
                        matches@[j]@,
                    )),
            decreases matches.len() - i,
        {
            let ghost before = indices@;
            if std::str::from_utf8(matches[i].as_slice()).is_err() {
                indices.push(i);
                proof {
                    assert(indices@[before.len() as int] == i);
                    assert forall|j: int| 0 <= j <= i implies (indices@.contains(j as usize)
                        <==> !valid_utf8(matches@[j]@)) by {
                        if j < i {
                            if before.contains(j as usize) {
                                let k = choose|k: int| 0 <= k < before.len() && before[k] == j;
                                assert(indices@[k] == j);
                            }
                            if indices@.contains(j as usize) {
                                let k = choose|k: int|
                                    0 <= k < indices@.len() && indices@[k] == j;
                                assert(k < before.len());
                                assert(before[k] == j);
                            }
                        }
                    }
                }
            }
            i += 1;
        }
        indices
    }

    /// Condenses the rule hits of one scan, one flat match for each hit.
    pub fn from_rules(rules: Vec<RuleHit>) -> (matches: Vec<FlatMatch>)
        ensures
            flat_views(matches@) == flatten_hits(hit_views(rules@)),
    {
        let ghost all = hit_views(rules@);
        let mut matches: Vec<FlatMatch> = Vec::new();
        for rule in iter: rules
            invariant
                all == hit_views(iter.seq()),
                matches.len() == iter.index(),
                forall|j: int| 0 <= j < matches.len() ==> matches@[j]@ == flatten_hit(all[j]),
        {
            assert(all[iter.index() as int] == rule@);
            matches.push(FlatMatch::from_rule(rule));
        }
        assert(flat_views(matches@) =~= flatten_hits(all));
        matches
    }

    /// Condenses one rule hit.
    pub fn from_rule(rule: RuleHit) -> (flat: FlatMatch)
        ensures
            flat@ == flatten_hit(rule@),
    {
        let rule_name = String::from_str(rule.namespace.as_str()).concat("::").concat(
            rule.identifier.as_str(),
        );
        let mut byte_data: Vec<Vec<u8>> = Vec::new();
        let strings = rule.strings;
        let ghost all = strings.deep_view();
        let mut i: usize = 0;
        while i < strings.len()
            invariant
                i <= strings.len(),
                all == strings.deep_view(),
                byte_runs(byte_data@) == all.take(i as int).flatten(),
            decreases strings.len() - i,
        {
            let matches = &strings[i];
            let ghost found = matches.deep_view();
            let ghost start = byte_runs(byte_data@);
            let mut j: usize = 0;
            while j < matches.len()
                invariant
                    j <= matches.len(),
                    found == matches.deep_view(),
                    byte_runs(byte_data@) == start + found.take(j as int),
                decreases matches.len() - j,
            {
                let ghost before = byte_data@;
                byte_data.push(clone_bytes(&matches[j]));
                proof {
                    assert(found[j as int] == matches@[j as int]@);
                    assert(byte_runs(byte_data@) =~= byte_runs(before).push(found[j as int]));
                    assert(found.take(j + 1) =~= found.take(j as int).push(found[j as int]));
                    assert(byte_runs(byte_data@) =~= start + found.take(j + 1));
                }
                j += 1;
            }
            proof {
                assert(found.take(j as int) =~= found);
                assert(all[i as int] == found);
                assert(all.take(i + 1) =~= all.take(i as int).push(found));
                all.take(i as int).lemma_flatten_push(found);
            }
            i += 1;
        }
        proof {
            assert(all.take(i as int) =~= all);
        }
        FlatMatch::new(rule_name, rule.tags, byte_data.as_slice())
    }

    /// The rule's qualified name.
    pub fn rule_name(&self) -> (name: &str)
        ensures
            name@ == self@.rule_name,
    {
        self.rule_name.as_str()
    }

    /// The rule's tags.
    pub fn tags(&self) -> (tags: &[String])
        ensures
            texts(tags@) == self@.tags,
    {
        self.tags.as_slice()
    }

    /// The matched fragments.
    pub fn data(&self) -> (data: &Vec<String>)
        ensures
            texts(data@) == self@.data,
    {
        &self.data
    }

    /// A flat match of the given rule, holding as a fragment each run of
    /// `matches` that is not empty and is valid UTF-8, and leaving the
    /// others out.
    pub fn new(rule_name: String, tags: Vec<String>, matches: &[Vec<u8>]) -> (flat: FlatMatch)
        ensures
            flat@ == (FlatMatchView {
                rule_name: rule_name@,
                tags: texts(tags@),
                data: fragments(byte_runs(matches@)),
            }),
    {
        let mut data: Vec<String> = Vec::new();
        let ghost runs = byte_runs(matches@);
        let mut i: usize = 0;
        while i < matches.len()
            invariant
                i <= matches.len(),
                runs == byte_runs(matches@),
                texts(data@) == fragments(runs.take(i as int)),
            decreases matches.len() - i,
        {
            let ghost kept = texts(data@);
            proof {
                runs.lemma_filter_map_take_succ(|run: Seq<u8>| fragment_text(run), i as int);
                assert(runs[i as int] == matches@[i as int]@);
            }
            if matches[i].len() > 0 {
                match std::str::from_utf8(matches[i].as_slice()) {
                    Ok(match_string) => {
                        proof {
                            decode_utf8_encode_utf8(runs[i as int]);
                            encode_utf8_decode_utf8(match_string@);
                        }
                        data.push(match_string.to_owned());
                        assert(texts(data@) =~= kept + seq![decode_utf8(runs[i as int])]);
                    },
                    Err(_) => {},
                }
            }
            i += 1;
        }
        proof {
            assert(runs.take(i as int) =~= runs);
        }
        FlatMatch { rule_name, tags, data }
    }
}

} // verus!
