use infobserve_processor::entities::{Event, FlatMatch};
use infobserve_processor::errors::ConfigurationError;
use infobserve_processor::processing::{can_take, Processor, ProcessorError, Stats, Summary};
use infobserve_processor::timestamp::Timestamp;
use std::time::Duration;

fn password_rule() -> String {
    String::from(
        r#"
        rule MyPass
        {
            meta:
                name = "My Pass"

            strings:
                $a = /pw:.+/

            condition:
                $a
        }
        "#,
    )
}

fn tagged_rules() -> String {
    String::from(
        r#"
        rule First : secret leak
        {
            strings:
                $a = "alpha"
                $b = "beta"
                $c = "gamma"

            condition:
                $a or $b or $c
        }

        rule Second
        {
            strings:
                $a = "beta"

            condition:
                $a
        }
        "#,
    )
}

fn processor() -> Processor {
    Processor::with_rule_str(&password_rule()).unwrap()
}

fn event(raw_content: &str) -> Event {
    let stamp = Timestamp::new(2020, 2, 20, 17, 18, 19).unwrap();
    Event::new(
        "https://pastebin.com/bad-paste",
        550,
        "pastebin",
        raw_content,
        "bad-paste.yml",
        "bad-user",
        stamp,
        stamp,
    )
}

#[test]
fn processor_does_not_blow_up() {
    processor();
}

#[test]
#[should_panic]
fn processor_blows_up_with_bad_rule() {
    Processor::with_rule_str("Bad Rule").unwrap();
}

#[test]
fn process_does_not_blow_up() {
    let p = processor();
    p.process(&"foo").unwrap();
}

#[test]
fn process_returns_correct_data() {
    let p = processor();
    let matches = p.process(&"pw: helloworld").unwrap();
    assert_eq!(matches.len(), 1);
    assert_eq!(matches[0].rule_name(), String::from("default::MyPass"));
    assert_eq!(matches[0].tags().len(), 0);
    assert_eq!(*matches[0].data()[0], String::from("pw: helloworld"));
}

#[test]
fn process_finds_nothing_in_a_text_without_a_match() {
    let p = processor();
    assert!(p.process("foo").unwrap().is_empty());
    assert!(p.process("").unwrap().is_empty());
}

#[test]
fn a_bad_rule_is_a_compile_error() {
    assert!(matches!(
        Processor::with_rule_str("Bad Rule"),
        Err(ProcessorError::RuleCompile(_))
    ));
    assert!(matches!(
        Processor::with_rules(vec![password_rule(), String::from("rule {")]),
        Err(ProcessorError::RuleCompile(_))
    ));
}

#[test]
fn a_rule_with_a_nul_is_refused_before_the_engine_sees_it() {
    assert!(matches!(
        Processor::with_rule_str("rule A { condition: true }\0"),
        Err(ProcessorError::RuleNotPlain)
    ));
    assert!(matches!(
        Processor::with_rules(vec![String::from("Bad Rule"), String::from("\0")]),
        Err(ProcessorError::RuleNotPlain)
    ));
}

#[test]
fn a_module_name_with_a_raw_byte_is_refused() {
    assert!(matches!(
        Processor::with_rule_str("import \"\\xff\"\nrule A { condition: true }"),
        Err(ProcessorError::RuleNotPlain)
    ));
    let long_name = "\u{e9}".repeat(400);
    assert!(matches!(
        Processor::with_rule_str(&format!("import \"{}\"", long_name)),
        Err(ProcessorError::RuleNotPlain)
    ));
}

#[test]
fn metadata_with_a_raw_byte_is_refused() {
    let rule = "rule A { meta: m = \"\\xff\" strings: $a = \"a\" condition: $a }";
    assert!(matches!(Processor::with_rule_str(rule), Err(ProcessorError::RuleNotPlain)));
    let rule = "rule A { meta: m = \"\\xC3\" condition: true }";
    assert!(matches!(Processor::with_rule_str(rule), Err(ProcessorError::RuleNotPlain)));
}

#[test]
fn metadata_in_ascii_is_scanned_with() {
    let rule = "rule A { meta: m = \"tab\\t \\x41 \\\\ end\" strings: $a = \"a\" condition: $a }";
    let p = Processor::with_rule_str(rule).unwrap();
    assert_eq!(p.process("banana").unwrap().len(), 1);
    assert!(p.process("cherry").unwrap().is_empty());
}

#[test]
fn a_text_is_plain_or_not() {
    assert!(can_take(""));
    assert!(can_take("rule A { strings: $a = { FF D8 } condition: $a }"));
    assert!(can_take("\\x7f \\x00 \\x41 \\n \\xg8 \\x"));
    assert!(!can_take("\\x8"));
    assert!(can_take("\\x7"));
    assert!(!can_take("\\x80"));
    assert!(!can_take("\\x9"));
    assert!(!can_take("a\\xa0b"));
    assert!(!can_take("\\xF"));
    assert!(!can_take("\\\\xff"));
    assert!(!can_take("caf\u{e9}"));
    assert!(!can_take("a\0b"));
    assert!(can_take("\u{7f}"));
    assert!(!can_take("\u{80}"));
}

#[test]
fn an_include_is_refused_by_the_engine() {
    assert!(matches!(
        Processor::with_rule_str("include \"other.yar\"\nrule A { condition: true }"),
        Err(ProcessorError::RuleCompile(_))
    ));
}

#[test]
fn every_match_is_a_run_of_the_text() {
    let p = Processor::with_rule_str(&tagged_rules()).unwrap();
    let text = "x gamma beta alpha beta y";
    let hits = p.scan(text).unwrap();
    assert_eq!(hits.len(), 2);
    for hit in &hits {
        for matches in &hit.strings {
            for run in matches {
                assert!(text.as_bytes().windows(run.len()).any(|window| window == &run[..]));
            }
        }
    }
    for flat in p.process(text).unwrap() {
        for fragment in flat.data() {
            assert!(text.contains(fragment.as_str()));
        }
    }
}

#[test]
fn a_match_that_is_no_text_is_left_out_and_can_be_told() {
    let rule = "rule Half { strings: $a = { C3 } $b = \"caf\" condition: $a and $b }";
    let p = Processor::with_rule_str(rule).unwrap();
    let text = "caf\u{e9} caf\u{e9}";
    let hits = p.scan(text).unwrap();
    assert_eq!(hits.len(), 1);
    assert_eq!(hits[0].strings, vec![vec![vec![0xc3], vec![0xc3]], vec![
        b"caf".to_vec(),
        b"caf".to_vec(),
    ]]);
    assert_eq!(FlatMatch::undecodable(&hits[0].strings[0]), vec![0, 1]);
    assert!(FlatMatch::undecodable(&hits[0].strings[1]).is_empty());
    let flats = p.process(text).unwrap();
    assert_eq!(flats.len(), 1);
    assert_eq!(flats[0].rule_name(), "default::Half");
    assert_eq!(flats[0].data(), &vec![String::from("caf"), String::from("caf")]);
}

#[test]
fn no_rule_files_are_an_error() {
    assert!(matches!(
        Processor::with_rule_files(Vec::new()),
        Err(ProcessorError::Configuration(ConfigurationError::NoYaraRulesError))
    ));
}

#[test]
fn rule_files_are_compiled_together() {
    let p = Processor::with_rule_files(vec![password_rule(), tagged_rules()]).unwrap();
    let matches = p.process("pw: beta").unwrap();
    let names: Vec<&str> = matches.iter().map(|m| m.rule_name()).collect();
    assert_eq!(names, vec!["default::MyPass", "default::First", "default::Second"]);
}

#[test]
fn no_rules_at_all_scan_without_a_match() {
    let p = Processor::with_rules(Vec::new()).unwrap();
    assert!(p.process("pw: helloworld").unwrap().is_empty());
}

#[test]
fn tags_and_fragments_keep_the_order_of_the_engine() {
    let p = Processor::with_rule_str(&tagged_rules()).unwrap();
    let matches = p.process("gamma beta alpha beta").unwrap();
    assert_eq!(matches.len(), 2);
    assert_eq!(matches[0].rule_name(), "default::First");
    assert_eq!(matches[0].tags(), [String::from("secret"), String::from("leak")]);
    assert_eq!(
        matches[0].data(),
        &vec![
            String::from("alpha"),
            String::from("beta"),
            String::from("beta"),
            String::from("gamma"),
        ]
    );
    assert_eq!(matches[1].rule_name(), "default::Second");
    assert!(matches[1].tags().is_empty());
    assert_eq!(matches[1].data(), &vec![String::from("beta"), String::from("beta")]);
}

#[test]
fn stats_start_from_zero() {
    let s = Stats::new();
    assert_eq!(s.overall_proc_time().as_millis(), 0);
    assert_eq!(s.num_events(), 0);
    assert_eq!(s.num_matches(), 0);
}

#[test]
fn stats_count_events_correctly() {
    let mut s = Stats::new();
    s.inc_events();
    assert_eq!(s.num_events(), 1);
}

#[test]
fn stats_count_matches_correctly() {
    let mut s = Stats::new();
    s.inc_matches();
    assert_eq!(s.num_matches(), 1);
}

#[test]
fn stats_return_zero_avg_time_when_no_events_are_processed() {
    let s = Stats::new();
    assert_eq!(s.avg_proc_time().as_millis(), 0);
}

#[test]
fn stats_count_overall_duration_correctly() {
    let mut s = Stats::new();
    let d1 = Duration::from_millis(10);
    s.add_duration(d1);
    let d2 = Duration::from_secs(1);
    s.add_duration(d2);
    assert_eq!(s.overall_proc_time(), Duration::from_millis(1010));
}

#[test]
fn stats_calculates_avg_correctly() {
    let mut s = Stats::new();
    let d = Duration::from_secs(1);
    s.add_duration(d);
    for _ in 0..5 {
        s.inc_events();
    }

    assert_eq!(s.avg_proc_time().as_millis(), 200);
}

#[test]
fn stats_count_failures_correctly() {
    let mut s = Stats::new();
    assert_eq!(s.num_failures(), 0);
    s.inc_failures();
    s.inc_failures();
    assert_eq!(s.num_failures(), 2);
    assert_eq!(s.num_events(), 0);
    assert_eq!(s.num_matches(), 0);
}

#[test]
fn the_average_is_rounded_down_to_the_nanosecond() {
    let mut s = Stats::new();
    s.add_duration(Duration::new(3, 1));
    s.inc_events();
    s.inc_events();
    assert_eq!(s.avg_proc_time(), Duration::new(1, 500_000_000));
    s.inc_events();
    assert_eq!(s.avg_proc_time(), Duration::new(1, 0));
    assert_eq!(s.overall_proc_time(), Duration::new(3, 1));
}

#[test]
fn long_durations_are_held_exactly() {
    let mut s = Stats::new();
    let long = Duration::new(u64::MAX - 1, 999_999_999);
    s.add_duration(long);
    s.add_duration(Duration::new(0, 1));
    assert_eq!(s.overall_proc_time(), Duration::new(u64::MAX, 0));
    s.inc_events();
    assert_eq!(s.avg_proc_time(), Duration::new(u64::MAX, 0));
}

#[test]
fn a_duration_is_added_where_the_sum_can_be_held() {
    let mut s = Stats::new();
    assert!(s.try_add_duration(Duration::new(u64::MAX, 999_999_998)));
    assert!(!s.try_add_duration(Duration::new(0, 2)));
    assert_eq!(s.overall_proc_time(), Duration::new(u64::MAX, 999_999_998));
    assert!(s.try_add_duration(Duration::new(0, 1)));
    assert_eq!(s.overall_proc_time(), Duration::MAX);
    assert!(!s.try_add_duration(Duration::MAX));
    assert!(s.try_add_duration(Duration::new(0, 0)));
}

#[test]
fn an_event_with_a_match_is_counted_and_passed_on() {
    let p = processor();
    let mut s = Stats::new();
    let e = event("pw: helloworld");
    let outcome = p.process(e.raw_content()).ok();
    let processed = s.observe(e, outcome).unwrap();
    assert_eq!(s.num_events(), 1);
    assert_eq!(s.num_matches(), 1);
    assert_eq!(s.num_failures(), 0);
    assert_eq!(processed.event().raw_content(), "pw: helloworld");
    assert_eq!(processed.matches().len(), 1);
    assert_eq!(processed.matches()[0].rule_name(), "default::MyPass");
}

#[test]
fn an_event_without_a_match_is_counted_and_dropped() {
    let p = processor();
    let mut s = Stats::new();
    let e = event("foo");
    let outcome = p.process(e.raw_content()).ok();
    assert!(s.observe(e, outcome).is_none());
    assert_eq!(s.num_events(), 1);
    assert_eq!(s.num_matches(), 0);
}

#[test]
fn an_event_whose_scan_failed_is_counted_and_dropped() {
    let mut s = Stats::new();
    assert!(s.observe(event("pw: helloworld"), None).is_none());
    assert_eq!(s.num_events(), 1);
    assert_eq!(s.num_matches(), 0);
}

#[test]
fn a_worker_counts_every_event_and_no_more_matches_than_events() {
    let p = processor();
    let mut s = Stats::new();
    let texts = ["pw: a", "nothing", "pw: b", "", "pw", "xpw: c"];
    let mut passed_on = 0;
    for text in texts {
        let e = event(text);
        let outcome = p.process(e.raw_content()).ok();
        if let Some(processed) = s.observe(e, outcome) {
            assert!(processed.matches().len() >= 1);
            passed_on += 1;
        }
        assert!(s.num_matches() <= s.num_events());
    }
    assert_eq!(s.num_events(), 6);
    assert_eq!(s.num_matches(), 3);
    assert_eq!(passed_on, 3);
}

#[test]
fn the_summary_adds_up_the_workers() {
    let mut first = Stats::new();
    first.observe(event("a"), Some(vec![FlatMatch::new(String::from("r"), vec![], &[])]));
    first.observe(event("b"), Some(vec![]));
    first.observe(event("c"), None);
    first.add_duration(Duration::from_millis(5));
    let mut second = Stats::new();
    second.observe(event("d"), Some(vec![FlatMatch::new(String::from("r"), vec![], &[])]));
    second.inc_failures();
    second.add_duration(Duration::from_millis(7));

    let mut summary = Summary::new();
    assert_eq!(summary.workers(), 0);
    summary.absorb(&first);
    summary.absorb(&second);
    assert_eq!(summary.workers(), 2);
    assert_eq!(summary.num_events(), 4);
    assert_eq!(summary.num_matches(), 2);
    assert_eq!(summary.num_failures(), 1);
    assert_eq!(summary.overall_nanos(), 12_000_000);
    assert!(summary.num_matches() <= summary.num_events());
}
