use infobserve_processor::config::{Config, DbCfg, RedisCfg, WorkerCfg};
use infobserve_processor::errors::ConfigurationError;

#[test]
fn config_it_returns_the_default_for_empty_cfg() {
    let yml = "";
    assert_eq!(Config::from_string(yml, None).unwrap(), Config::default());
}

#[test]
fn config_returns_correct_processor_value() {
    let yml = r#"
        workers:
            processors: 2
            loaders: 5
        yara_rule_dir: foo
        "#;

    let cfg = Config::from_string(yml, None).unwrap();
    assert_eq!(cfg.yara_rule_dir(), "foo");
    assert_eq!(cfg.workers().num_processors(), 2);
    assert_eq!(cfg.workers().num_feeders(), 1);
    assert_eq!(cfg.workers().num_loaders(), 5);
    assert_eq!(cfg.db(), &DbCfg::default());
    assert_eq!(cfg.redis(), &RedisCfg::default());
}

#[test]
fn config_returns_correct_feeder_value() {
    let yml = r#"
        workers:
            feeders: 5
        "#;

    let cfg = Config::from_string(yml, None).unwrap();
    assert_eq!(cfg.yara_rule_dir(), "yara-rules/");
    assert_eq!(cfg.workers().num_processors(), 1);
    assert_eq!(cfg.workers().num_feeders(), 5);
    assert_eq!(cfg.workers().num_loaders(), 1);
    assert_eq!(cfg.db(), &DbCfg::default());
    assert_eq!(cfg.redis(), &RedisCfg::default());
}

#[test]
fn config_returns_correct_db_values() {
    let yml = r#"
        database:
            host: localhost
            port: 1337
            db_name: my_db
            user: my_user
            passwd: my_passwd
        "#;

    let cfg = Config::from_string(yml, None).unwrap();
    assert_eq!(cfg.db().user(), "my_user");
    assert_eq!(cfg.db().passwd(), "my_passwd");
    assert_eq!(cfg.db().db_name(), "my_db");
    assert_eq!(cfg.db().host(), "localhost");
    assert_eq!(cfg.db().port(), 1337);
    assert_eq!(cfg.yara_rule_dir(), "yara-rules/");
    assert_eq!(cfg.workers(), &WorkerCfg::default());
    assert_eq!(cfg.redis(), &RedisCfg::default());
}

#[test]
fn auto_calculates_negative_workers() {
    let expected = WorkerCfg::from_counts(Some(4), Some(2), Some(2)).unwrap();
    let actual = WorkerCfg::with_calculated_threads(8);

    assert_eq!(expected, actual);
    assert_eq!(actual.num_processors(), 4);
    assert_eq!(actual.num_feeders(), 2);
    assert_eq!(actual.num_loaders(), 2);
}

#[test]
fn auto_calculates_workers() {
    let yml = r#"
        workers: auto
        "#;

    let cfg = Config::from_string(yml, None).unwrap();
    let workers = cfg.workers();

    assert_ne!(workers.num_processors(), 0);
    assert_ne!(workers.num_feeders(), 0);
    assert_ne!(workers.num_loaders(), 0);
}

#[test]
fn auto_calculate_assigns_at_least_one_thread() {
    let actual = WorkerCfg::with_calculated_threads(1);

    assert_ne!(actual.num_processors(), 0);
    assert_ne!(actual.num_feeders(), 0);
    assert_ne!(actual.num_loaders(), 0);
}

#[test]
#[should_panic]
fn only_accepts_auto_value_for_workers() {
    let yml = r#"
        workers: something_else
        "#;

    Config::from_string(yml, None).unwrap();
}

#[test]
fn a_word_other_than_auto_is_named_in_the_error() {
    let yml = "workers: something_else\n";
    match Config::from_string(yml, None) {
        Err(ConfigurationError::BadWorkersKeyValue(word)) => assert_eq!(word, "something_else"),
        other => panic!("unexpected: {:?}", other),
    }
    match WorkerCfg::from_keyword("Auto", 8) {
        Err(ConfigurationError::BadWorkersKeyValue(word)) => assert_eq!(word, "Auto"),
        other => panic!("unexpected: {:?}", other),
    }
}

#[test]
fn auto_on_one_cpu_gives_one_worker_of_each_kind() {
    let workers = WorkerCfg::with_calculated_threads(1);
    assert_eq!(
        (workers.num_processors(), workers.num_feeders(), workers.num_loaders()),
        (1, 1, 1)
    );
    let none = WorkerCfg::with_calculated_threads(0);
    assert_eq!((none.num_processors(), none.num_feeders(), none.num_loaders()), (1, 1, 1));
}

#[test]
fn auto_rounds_each_share_down() {
    let seven = WorkerCfg::with_calculated_threads(7);
    assert_eq!((seven.num_processors(), seven.num_feeders(), seven.num_loaders()), (3, 1, 1));
    let three = WorkerCfg::with_calculated_threads(3);
    assert_eq!((three.num_processors(), three.num_feeders(), three.num_loaders()), (1, 1, 1));
    let many = WorkerCfg::with_calculated_threads(64);
    assert_eq!((many.num_processors(), many.num_feeders(), many.num_loaders()), (32, 16, 16));
    let odd = WorkerCfg::with_calculated_threads(33_554_435);
    assert_eq!(
        (odd.num_processors(), odd.num_feeders(), odd.num_loaders()),
        (16_777_217, 8_388_608, 8_388_608)
    );
}

#[test]
fn auto_by_keyword_is_auto_by_count() {
    assert_eq!(
        WorkerCfg::from_keyword("auto", 8).unwrap(),
        WorkerCfg::with_calculated_threads(8)
    );
}

#[test]
fn auto_never_gives_more_workers_than_the_counter_holds() {
    let workers = WorkerCfg::with_calculated_threads(usize::MAX);
    assert_eq!(workers.num_processors(), i32::MAX);
    assert_eq!(workers.num_feeders(), i32::MAX);
    assert_eq!(workers.num_loaders(), i32::MAX);
}

#[test]
fn zero_workers_are_an_error() {
    for yml in [
        "workers:\n    processors: 0\n",
        "workers:\n    feeders: 0\n",
        "workers:\n    loaders: 0\n",
    ] {
        assert!(matches!(
            Config::from_string(yml, None),
            Err(ConfigurationError::NegativeWorkersError)
        ));
    }
}

#[test]
fn negative_workers_are_an_error() {
    let yml = "workers:\n    feeders: -1\n";
    assert!(matches!(
        Config::from_string(yml, None),
        Err(ConfigurationError::NegativeWorkersError)
    ));
    assert!(matches!(
        WorkerCfg::from_counts(Some(3), Some(2), Some(-7)),
        Err(ConfigurationError::NegativeWorkersError)
    ));
    assert!(matches!(
        WorkerCfg::from_counts(Some(i64::MIN), None, None),
        Err(ConfigurationError::NegativeWorkersError)
    ));
}

#[test]
fn a_negative_count_is_an_error_whatever_its_low_bits_are() {
    assert!(matches!(
        WorkerCfg::from_counts(Some(-4_294_967_295), None, None),
        Err(ConfigurationError::NegativeWorkersError)
    ));
}

#[test]
fn a_count_is_read_by_its_low_32_bits() {
    let workers = WorkerCfg::from_counts(Some(4_294_967_297), None, None).unwrap();
    assert_eq!(workers.num_processors(), 1);
    assert!(matches!(
        WorkerCfg::from_counts(Some(4_294_967_296), None, None),
        Err(ConfigurationError::NegativeWorkersError)
    ));
    assert!(matches!(
        WorkerCfg::from_counts(None, Some(2_147_483_648), None),
        Err(ConfigurationError::NegativeWorkersError)
    ));
}

#[test]
fn counts_that_are_not_given_are_one() {
    let workers = WorkerCfg::from_counts(None, None, None).unwrap();
    assert_eq!(workers, WorkerCfg::default());
    assert_eq!(
        (workers.num_processors(), workers.num_feeders(), workers.num_loaders()),
        (1, 1, 1)
    );
}

#[test]
fn a_count_that_is_no_integer_is_not_given() {
    let yml = "workers:\n    processors: many\n    feeders: 2.5\n    loaders: 3\n";
    let cfg = Config::from_string(yml, None).unwrap();
    assert_eq!(cfg.workers().num_processors(), 1);
    assert_eq!(cfg.workers().num_feeders(), 1);
    assert_eq!(cfg.workers().num_loaders(), 3);
}

#[test]
fn the_defaults_are_those_of_the_documentation() {
    let cfg = Config::default();
    assert_eq!(cfg.yara_rule_dir(), "yara-rules/");
    assert_eq!(cfg.workers().num_processors(), 1);
    assert_eq!(cfg.workers().num_feeders(), 1);
    assert_eq!(cfg.workers().num_loaders(), 1);
    assert_eq!(cfg.db().user(), "postgres");
    assert_eq!(cfg.db().passwd(), "infobserve");
    assert_eq!(cfg.db().db_name(), "infobserve");
    assert_eq!(cfg.db().host(), "localhost");
    assert_eq!(cfg.db().port(), 5432);
    assert_eq!(cfg.redis().host(), "localhost");
    assert_eq!(cfg.redis().port(), 6379);
}

#[test]
fn the_password_of_the_environment_is_used_when_the_file_has_none() {
    let yml = "database:\n    user: me\n";
    let cfg = Config::from_string(yml, Some(String::from("from-env"))).unwrap();
    assert_eq!(cfg.db().user(), "me");
    assert_eq!(cfg.db().passwd(), "from-env");
}

#[test]
fn the_password_of_the_file_comes_before_that_of_the_environment() {
    let yml = "database:\n    passwd: from-file\n";
    let cfg = Config::from_string(yml, Some(String::from("from-env"))).unwrap();
    assert_eq!(cfg.db().passwd(), "from-file");
}

#[test]
fn the_password_of_the_environment_is_used_when_there_is_no_database_block() {
    let yml = "yara_rule_dir: rules\n";
    let cfg = Config::from_string(yml, Some(String::from("from-env"))).unwrap();
    assert_eq!(cfg.db().passwd(), "from-env");
    assert_eq!(cfg.db().user(), "postgres");
}

#[test]
fn an_empty_text_ignores_the_environment() {
    let cfg = Config::from_string("", Some(String::from("from-env"))).unwrap();
    assert_eq!(cfg.db().passwd(), "infobserve");
}

#[test]
fn database_values_by_hand() {
    let db = DbCfg::from_values(
        Some(String::from("u")),
        None,
        Some(String::from("d")),
        None,
        Some(6543),
        None,
    );
    assert_eq!(db.user(), "u");
    assert_eq!(db.passwd(), "infobserve");
    assert_eq!(db.db_name(), "d");
    assert_eq!(db.host(), "localhost");
    assert_eq!(db.port(), 6543);
}

#[test]
fn a_port_is_read_by_its_low_16_bits() {
    let db = DbCfg::from_values(None, None, None, None, Some(70_000), None);
    assert_eq!(db.port(), 4464);
    let redis = RedisCfg::from_values(None, Some(-1));
    assert_eq!(redis.port(), 65_535);
}

#[test]
fn redis_values_are_read() {
    let yml = "redis:\n    host: queue.local\n    port: 7000\n";
    let cfg = Config::from_string(yml, None).unwrap();
    assert_eq!(cfg.redis().host(), "queue.local");
    assert_eq!(cfg.redis().port(), 7000);
    assert_eq!(cfg.db(), &DbCfg::default());
}

#[test]
fn only_the_first_document_is_read() {
    let yml = "yara_rule_dir: first\n---\nyara_rule_dir: second\n";
    let cfg = Config::from_string(yml, None).unwrap();
    assert_eq!(cfg.yara_rule_dir(), "first");
}

#[test]
fn a_text_that_is_no_yaml_is_an_error() {
    let yml = "workers: [1, 2\n";
    assert!(matches!(
        Config::from_string(yml, None),
        Err(ConfigurationError::InvalidYamlError(_))
    ));
}

#[test]
fn a_value_of_the_wrong_kind_gives_way_to_the_default() {
    let yml = "yara_rule_dir: 17\ndatabase:\n    port: high\n    host: 5\n";
    let cfg = Config::from_string(yml, None).unwrap();
    assert_eq!(cfg.yara_rule_dir(), "yara-rules/");
    assert_eq!(cfg.db().port(), 5432);
    assert_eq!(cfg.db().host(), "localhost");
}

fn nested_sequences(depth: usize) -> String {
    let mut text = String::new();
    for _ in 0..depth {
        text.push_str("- ");
    }
    text.push_str("x\n");
    text
}

fn nested_mappings(depth: usize) -> String {
    let mut text = String::new();
    for level in 0..depth {
        for _ in 0..level {
            text.push(' ');
        }
        text.push_str("k:\n");
    }
    text
}

#[test]
fn a_text_that_nests_deep_is_refused_before_it_is_loaded() {
    for text in [
        nested_sequences(1000),
        nested_sequences(100_000),
        nested_mappings(1000),
        "[".repeat(5000),
        "{".repeat(5000),
        "? ".repeat(5000),
    ] {
        assert!(matches!(
            Config::from_string(&text, None),
            Err(ConfigurationError::TooManyIndicatorsError)
        ));
    }
}

#[test]
fn a_text_may_hold_128_indicators_and_no_more() {
    assert!(Config::from_string(&nested_sequences(128), None).is_ok());
    assert!(Config::from_string(&nested_mappings(128), None).is_ok());
    assert!(matches!(
        Config::from_string(&nested_sequences(129), None),
        Err(ConfigurationError::TooManyIndicatorsError)
    ));
    let comment = format!("# {}\nyara_rule_dir: foo\n", "-".repeat(127));
    assert_eq!(Config::from_string(&comment, None).unwrap().yara_rule_dir(), "foo");
    let comment = format!("# {}\nyara_rule_dir: foo\n", "-".repeat(128));
    assert!(matches!(
        Config::from_string(&comment, None),
        Err(ConfigurationError::TooManyIndicatorsError)
    ));
}

#[test]
fn a_full_configuration_is_loaded() {
    let yml = r#"
# The processing stage
workers:
    processors: 5
    feeders: 2
    loaders: 3
yara_rule_dir: ./yara-rules
database:
    user: infobserve-user
    passwd: 54infobserve32
    db_name: public
    host: db.example-host.org
    port: 5433
redis:
    host: queue.example-host.org
    port: 6380
"#;
    let cfg = Config::from_string(yml, None).unwrap();
    assert_eq!(cfg.workers().num_processors(), 5);
    assert_eq!(cfg.workers().num_feeders(), 2);
    assert_eq!(cfg.workers().num_loaders(), 3);
    assert_eq!(cfg.yara_rule_dir(), "./yara-rules");
    assert_eq!(cfg.db().user(), "infobserve-user");
    assert_eq!(cfg.db().passwd(), "54infobserve32");
    assert_eq!(cfg.db().db_name(), "public");
    assert_eq!(cfg.db().host(), "db.example-host.org");
    assert_eq!(cfg.db().port(), 5433);
    assert_eq!(cfg.redis().host(), "queue.example-host.org");
    assert_eq!(cfg.redis().port(), 6380);
}
