//! The configuration of the process, read from a YAML text.
use crate::errors::{ConfigFailure, ConfigurationError};
use crate::utils::{clamp_min, same_text, text_of};
use crate::yaml::{
    can_load, entry, load, loadable, yaml_documents, yaml_entry, yaml_integer, yaml_text,
};
use vstd::prelude::*;
use vstd::string::*;
use yaml_rust::Yaml;

verus! {

pub const DEFAULT_NUM_PROCESSORS: i32 = 1;

pub const DEFAULT_NUM_FEEDERS: i32 = 1;

pub const DEFAULT_NUM_LOADERS: i32 = 1;

pub const DEFAULT_DB_PORT: u16 = 5432;

pub const DEFAULT_REDIS_PORT: u16 = 6379;

/// The directory that is searched for rules where the configuration names
/// none.
pub open spec fn default_yara_rule_dir() -> Seq<char> {
    "yara-rules/"@
}

pub open spec fn default_db_user() -> Seq<char> {
    "postgres"@
}

pub open spec fn default_db_passwd() -> Seq<char> {
    "infobserve"@
}

pub open spec fn default_db_database() -> Seq<char> {
    "infobserve"@
}

pub open spec fn default_db_host() -> Seq<char> {
    "localhost"@
}

pub open spec fn default_redis_host() -> Seq<char> {
    "localhost"@
}

/// What a [`WorkerCfg`] holds.
pub struct WorkerCfgView {
    pub num_processors: int,
    pub num_feeders: int,
    pub num_loaders: int,
}

/// What a [`DbCfg`] holds.
pub struct DbCfgView {
    pub user: Seq<char>,
    pub passwd: Seq<char>,
    pub db_name: Seq<char>,
    pub host: Seq<char>,
    pub port: u16,
}

/// What a [`RedisCfg`] holds.
pub struct RedisCfgView {
    pub host: Seq<char>,
    pub port: u16,
}

/// What a [`Config`] holds.
pub struct ConfigView {
    pub yara_rule_dir: Seq<char>,
    pub workers: WorkerCfgView,
    pub db: DbCfgView,
    pub redis: RedisCfgView,
}

/// The whole configuration.
#[derive(PartialEq, Debug)]
pub struct Config {
    yara_rule_dir: String,
    worker_cfg: WorkerCfg,
    db_cfg: DbCfg,
    redis_cfg: RedisCfg,
}

/// How to reach the store.
#[derive(PartialEq, Debug)]
pub struct DbCfg {
    user: String,
    passwd: String,
    db_name: String,
    host: String,
    port: u16,
}

/// How many workers of each kind run. There is at least one of each.
#[derive(PartialEq, Debug)]
pub struct WorkerCfg {
    num_processors: i32,
    num_feeders: i32,
    num_loaders: i32,
}

/// How to reach the queue.
#[derive(PartialEq, Debug)]
pub struct RedisCfg {
    host: String,
    port: u16,
}

impl View for WorkerCfg {
    type V = WorkerCfgView;

    closed spec fn view(&self) -> WorkerCfgView {
        WorkerCfgView {
            num_processors: self.num_processors as int,
            num_feeders: self.num_feeders as int,
            num_loaders: self.num_loaders as int,
        }
    }
}

impl View for DbCfg {
    type V = DbCfgView;

    closed spec fn view(&self) -> DbCfgView {
        DbCfgView {
            user: self.user@,
            passwd: self.passwd@,
            db_name: self.db_name@,
            host: self.host@,
            port: self.port,
        }
    }
}

impl View for RedisCfg {
    type V = RedisCfgView;

    closed spec fn view(&self) -> RedisCfgView {
        RedisCfgView { host: self.host@, port: self.port }
    }
}

impl View for Config {
    type V = ConfigView;

    closed spec fn view(&self) -> ConfigView {
        ConfigView {
            yara_rule_dir: self.yara_rule_dir@,
            workers: self.worker_cfg@,
            db: self.db_cfg@,
            redis: self.redis_cfg@,
        }
    }
}

/// The workers that run where the configuration says nothing of them.
pub open spec fn default_workers() -> WorkerCfgView {
    WorkerCfgView { num_processors: 1, num_feeders: 1, num_loaders: 1 }
}

/// The store that is used where the configuration says nothing of it.
pub open spec fn default_db() -> DbCfgView {
    DbCfgView {
        user: default_db_user(),
        passwd: default_db_passwd(),
        db_name: default_db_database(),
        host: default_db_host(),
        port: DEFAULT_DB_PORT,
    }
}

/// The queue that is used where the configuration says nothing of it.
pub open spec fn default_redis() -> RedisCfgView {
    RedisCfgView { host: default_redis_host(), port: DEFAULT_REDIS_PORT }
}

/// The configuration that is used where there is none.
pub open spec fn default_config() -> ConfigView {
    ConfigView {
        yara_rule_dir: default_yara_rule_dir(),
        workers: default_workers(),
        db: default_db(),
        redis: default_redis(),
    }
}

/// The share of the logical CPUs that one kind of worker gets: a
/// `divisor`-th of them, rounded down, but at least one and no more than
/// the counter holds.
pub open spec fn share(cpus: usize, divisor: usize) -> int {
    let part = cpus / divisor;
    if part < 1 {
        1
    } else if part > i32::MAX {
        i32::MAX as int
    } else {
        part as int
    }
}

/// The workers that `auto` gives on a machine with `cpus` logical CPUs:
/// half of them process, a quarter feed and a quarter load.
pub open spec fn calculated(cpus: usize) -> WorkerCfgView {
    WorkerCfgView {
        num_processors: share(cpus, 2),
        num_feeders: share(cpus, 4),
        num_loaders: share(cpus, 4),
    }
}

/// A worker count as it is read: the low 32 bits of the number that is
/// given, or the default.
pub open spec fn count_or(value: Option<i64>, default: i32) -> i32 {
    match value {
        Some(number) => number as i32,
        None => default,
    }
}

/// Whether a worker count is refused: one that is given and is zero or
/// less, either as it stands or as it is read.
pub open spec fn refused(value: Option<i64>) -> bool {
    value matches Some(number) && (number <= 0 || count_or(value, 0) <= 0)
}

/// The workers that three counts stand for. None of them may be zero or
/// less.
pub open spec fn workers_from_counts(
    processors: Option<i64>,
    feeders: Option<i64>,
    loaders: Option<i64>,
) -> Result<WorkerCfgView, ConfigFailure> {
    let num_processors = count_or(processors, DEFAULT_NUM_PROCESSORS);
    let num_feeders = count_or(feeders, DEFAULT_NUM_FEEDERS);
    let num_loaders = count_or(loaders, DEFAULT_NUM_LOADERS);
    if refused(processors) || refused(feeders) || refused(loaders) {
        Err(ConfigFailure::NegativeWorkers)
    } else {
        Ok(
            WorkerCfgView {
                num_processors: num_processors as int,
                num_feeders: num_feeders as int,
                num_loaders: num_loaders as int,
            },
        )
    }
}

/// What a word in the place of the counts stands for on a machine with
/// `cpus` logical CPUs. The only word that is understood is `auto`.
pub open spec fn workers_from_keyword(word: Seq<char>, cpus: usize) -> Result<
    WorkerCfgView,
    ConfigFailure,
> {
    if word == "auto"@ {
        Ok(calculated(cpus))
    } else {
        Err(ConfigFailure::BadWorkersKeyValue(word))
    }
}

/// Whether `outcome` is what the `workers` block of a configuration may be
/// read as. Where the block is the word `auto`, the outcome is that of some
/// number of logical CPUs.
pub open spec fn workers_outcome(
    block: Yaml,
    outcome: Result<WorkerCfgView, ConfigFailure>,
) -> bool {
    match yaml_text(block) {
        Some(word) => exists|cpus: usize| outcome == #[trigger] workers_from_keyword(word, cpus),
        None => outcome == workers_from_counts(
            yaml_integer(yaml_entry(block, "processors"@)),
            yaml_integer(yaml_entry(block, "feeders"@)),
            yaml_integer(yaml_entry(block, "loaders"@)),
        ),
    }
}

/// The view of a result that holds workers.
pub open spec fn workers_view(result: Result<WorkerCfg, ConfigurationError>) -> Result<
    WorkerCfgView,
    ConfigFailure,
> {
    match result {
        Ok(workers) => Ok(workers@),
        Err(error) => Err(error@),
    }
}

/// `num_cpus::get`: the number of logical CPUs that this process may use.
/// Nothing is claimed of the number.
pub assume_specification[ num_cpus::get ]() -> usize
;

fn saturate(number: usize) -> (held: i32)
    ensures
        held == (if number > i32::MAX {
            i32::MAX as int
        } else {
            number as int
        }),
{
    if number > i32::MAX as usize {
        i32::MAX
    } else {
        number as i32
    }
}

fn share_of(cpus: usize, divisor: usize) -> (count: i32)
    requires
        divisor > 0,
    ensures
        count == share(cpus, divisor),
{
    clamp_min(saturate(cpus / divisor), 1)
}

fn text_at(block: &Yaml, key: &str) -> (text: Option<String>)
    ensures
        text_of(text) == yaml_text(yaml_entry(*block, key@)),
{
    match entry(block, key).as_str() {
        Some(text) => Some(text.to_owned()),
        None => None,
    }
}

fn integer_at(block: &Yaml, key: &str) -> (number: Option<i64>)
    ensures
        number == yaml_integer(yaml_entry(*block, key@)),
{
    entry(block, key).as_i64()
}

impl WorkerCfg {
    #[verifier::type_invariant]
    spec fn one_of_each(self) -> bool {
        self.num_processors >= 1 && self.num_feeders >= 1 && self.num_loaders >= 1
    }

    pub fn num_processors(&self) -> (count: i32)
        ensures
            count == self@.num_processors,
            count >= 1,
    {
        proof {
            use_type_invariant(self);
        }
        self.num_processors
    }

    pub fn num_feeders(&self) -> (count: i32)
        ensures
            count == self@.num_feeders,
            count >= 1,
    {
        proof {
            use_type_invariant(self);
        }
        self.num_feeders
    }

    pub fn num_loaders(&self) -> (count: i32)
        ensures
            count == self@.num_loaders,
            count >= 1,
    {
        proof {
            use_type_invariant(self);
        }
        self.num_loaders
    }

    /// Reads the `workers` block of a configuration: the word `auto`, or
    /// the three counts.
    fn from_block(block: &Yaml) -> (result: Result<Self, ConfigurationError>)
        ensures
            workers_outcome(*block, workers_view(result)),
    {
        match block.as_str() {
            Some(word) => {
                // The CPUs are counted only where the word asks for them.
                let cpus = if same_text(word, "auto") {
                    num_cpus::get()
                } else {
                    0
                };
                let result = Self::from_keyword(word, cpus);
                assert(workers_view(result) == workers_from_keyword(word@, cpus));
                result
            },
            None => Self::from_counts(
                integer_at(block, "processors"),
                integer_at(block, "feeders"),
                integer_at(block, "loaders"),
            ),
        }
    }

    /// The workers that a word in the place of the counts stands for on a
    /// machine with `cpus` logical CPUs.
    pub fn from_keyword(word: &str, cpus: usize) -> (result: Result<Self, ConfigurationError>)
        ensures
            workers_view(result) == workers_from_keyword(word@, cpus),
    {
        if same_text(word, "auto") {
            Ok(Self::with_calculated_threads(cpus))
        } else {
            Err(ConfigurationError::BadWorkersKeyValue(word.to_owned()))
        }
    }

    /// The workers that three counts stand for, each with its default
    /// where it is not given.
    pub fn from_counts(processors: Option<i64>, feeders: Option<i64>, loaders: Option<i64>) -> (result:
        Result<Self, ConfigurationError>)
        ensures
            workers_view(result) == workers_from_counts(processors, feeders, loaders),
            (processors matches Some(n) && n <= 0) || (feeders matches Some(n) && n <= 0) || (
            loaders matches Some(n) && n <= 0) ==> result is Err,
    {
        if Self::is_refused(processors) || Self::is_refused(feeders) || Self::is_refused(
            loaders,
        ) {
            return Err(ConfigurationError::NegativeWorkersError);
        }
        let num_processors = Self::count_or_default(processors, DEFAULT_NUM_PROCESSORS);
        let num_feeders = Self::count_or_default(feeders, DEFAULT_NUM_FEEDERS);
        let num_loaders = Self::count_or_default(loaders, DEFAULT_NUM_LOADERS);
        Ok(Self { num_processors, num_feeders, num_loaders })
    }

    fn is_refused(value: Option<i64>) -> (refuse: bool)
        ensures
            refuse == refused(value),
    {
        match value {
            Some(number) => number <= 0 || Self::count_or_default(value, 0) <= 0,
            None => false,
        }
    }

    /// Divides the logical CPUs among the workers: half of them process, a
    /// quarter feed, a quarter load, and each kind has at least one.
    pub fn with_calculated_threads(overall_cpus: usize) -> (workers: Self)
        ensures
            workers@ == calculated(overall_cpus),
            overall_cpus / 2 <= i32::MAX ==> {
                &&& workers@.num_processors == (if overall_cpus / 2 < 1 {
                    1
                } else {
                    overall_cpus as int / 2
                })
                &&& workers@.num_feeders == (if overall_cpus / 4 < 1 {
                    1
                } else {
                    overall_cpus as int / 4
                })
                &&& workers@.num_loaders == workers@.num_feeders
            },
    {
        let num_processors = share_of(overall_cpus, 2);
        let num_feeders = share_of(overall_cpus, 4);
        let num_loaders = share_of(overall_cpus, 4);
        Self { num_processors, num_feeders, num_loaders }
    }

    fn count_or_default(value: Option<i64>, default: i32) -> (count: i32)
        ensures
            count == count_or(value, default),
    {
        match value {
            Some(number) => #[verifier::truncate]
            (number as i32),
            None => default,
        }
    }
}

impl Default for WorkerCfg {
    fn default() -> (workers: Self)
        ensures
            workers@ == default_workers(),
    {
        Self {
            num_processors: DEFAULT_NUM_PROCESSORS,
            num_feeders: DEFAULT_NUM_FEEDERS,
            num_loaders: DEFAULT_NUM_LOADERS,
        }
    }
}

/// A text as it is read: the one that is given, or the default.
pub open spec fn text_or(value: Option<Seq<char>>, default: Seq<char>) -> Seq<char> {
    match value {
        Some(text) => text,
        None => default,
    }
}

/// A port as it is read: the low 16 bits of the number that is given, or
/// the default.
pub open spec fn port_or(value: Option<i64>, default: u16) -> u16 {
    match value {
        Some(number) => number as u16,
        None => default,
    }
}

/// The store that the values of a `database` block stand for. A password
/// that the block does not give is taken from the environment, and where
/// that has none either, it is the default.
pub open spec fn db_from_values(
    user: Option<Seq<char>>,
    passwd: Option<Seq<char>>,
    db_name: Option<Seq<char>>,
    host: Option<Seq<char>>,
    port: Option<i64>,
    env_passwd: Option<Seq<char>>,
) -> DbCfgView {
    DbCfgView {
        user: text_or(user, default_db_user()),
        passwd: match passwd {
            Some(text) => text,
            None => text_or(env_passwd, default_db_passwd()),
        },
        db_name: text_or(db_name, default_db_database()),
        host: text_or(host, default_db_host()),
        port: port_or(port, DEFAULT_DB_PORT),
    }
}

/// The store that a `database` block stands for.
pub open spec fn db_in(block: Yaml, env_passwd: Option<Seq<char>>) -> DbCfgView {
    db_from_values(
        yaml_text(yaml_entry(block, "user"@)),
        yaml_text(yaml_entry(block, "passwd"@)),
        yaml_text(yaml_entry(block, "db_name"@)),
        yaml_text(yaml_entry(block, "host"@)),
        yaml_integer(yaml_entry(block, "port"@)),
        env_passwd,
    )
}

/// The queue that the values of a `redis` block stand for.
pub open spec fn redis_from_values(host: Option<Seq<char>>, port: Option<i64>) -> RedisCfgView {
    RedisCfgView {
        host: text_or(host, default_redis_host()),
        port: port_or(port, DEFAULT_REDIS_PORT),
    }
}

/// The queue that a `redis` block stands for.
pub open spec fn redis_in(block: Yaml) -> RedisCfgView {
    redis_from_values(
        yaml_text(yaml_entry(block, "host"@)),
        yaml_integer(yaml_entry(block, "port"@)),
    )
}

/// Whether `outcome` is what a document may be read as: the workers as
/// their block allows, and everything else as the document gives it.
pub open spec fn document_outcome(
    document: Yaml,
    env_passwd: Option<Seq<char>>,
    outcome: Result<ConfigView, ConfigFailure>,
) -> bool {
    match outcome {
        Ok(config) => {
            &&& workers_outcome(yaml_entry(document, "workers"@), Ok(config.workers))
            &&& config.yara_rule_dir == text_or(
                yaml_text(yaml_entry(document, "yara_rule_dir"@)),
                default_yara_rule_dir(),
            )
            &&& config.db == db_in(yaml_entry(document, "database"@), env_passwd)
            &&& config.redis == redis_in(yaml_entry(document, "redis"@))
        },
        Err(failure) => workers_outcome(yaml_entry(document, "workers"@), Err(failure)),
    }
}

/// Whether `outcome` is what a text may be read as: an error where it
/// holds too many indicators to be loaded or is no YAML, the defaults where
/// it holds no document, and else what its first document is read as.
pub open spec fn text_outcome(
    text: Seq<char>,
    env_passwd: Option<Seq<char>>,
    outcome: Result<ConfigView, ConfigFailure>,
) -> bool {
    if !loadable(text) {
        outcome == Err::<ConfigView, ConfigFailure>(ConfigFailure::TooManyIndicators)
    } else {
        text_outcome_loaded(text, env_passwd, outcome)
    }
}

/// Whether `outcome` is what a text that can be loaded may be read as.
pub open spec fn text_outcome_loaded(
    text: Seq<char>,
    env_passwd: Option<Seq<char>>,
    outcome: Result<ConfigView, ConfigFailure>,
) -> bool {
    match yaml_documents(text) {
        None => outcome == Err::<ConfigView, ConfigFailure>(ConfigFailure::InvalidYaml),
        Some(documents) => if documents.len() == 0 {
            outcome == Ok::<ConfigView, ConfigFailure>(default_config())
        } else {
            document_outcome(documents[0], env_passwd, outcome)
        },
    }
}

/// The view of a result that holds a configuration.
pub open spec fn config_view(result: Result<Config, ConfigurationError>) -> Result<
    ConfigView,
    ConfigFailure,
> {
    match result {
        Ok(config) => Ok(config@),
        Err(error) => Err(error@),
    }
}

fn or_default(value: Option<String>, default: &str) -> (text: String)
    ensures
        text@ == text_or(text_of(value), default@),
{
    match value {
        Some(text) => text,
        None => default.to_owned(),
    }
}

fn port_or_default(value: Option<i64>, default: u16) -> (port: u16)
    ensures
        port == port_or(value, default),
{
    match value {
        Some(number) => #[verifier::truncate]
        (number as u16),
        None => default,
    }
}

impl DbCfg {
    pub fn user(&self) -> (user: &str)
        ensures
            user@ == self@.user,
    {
        self.user.as_str()
    }

    pub fn passwd(&self) -> (passwd: &str)
        ensures
            passwd@ == self@.passwd,
    {
        self.passwd.as_str()
    }

    pub fn db_name(&self) -> (db_name: &str)
        ensures
            db_name@ == self@.db_name,
    {
        self.db_name.as_str()
    }

    pub fn host(&self) -> (host: &str)
        ensures
            host@ == self@.host,
    {
        self.host.as_str()
    }

    pub fn port(&self) -> (port: u16)
        ensures
            port == self@.port,
    {
        self.port
    }

    /// Reads the `database` block of a configuration. `env_passwd` is the
    /// password that the environment offers.
    fn from_block(yaml_block: &Yaml, env_passwd: Option<String>) -> (db: Self)
        ensures
            db@ == db_in(*yaml_block, text_of(env_passwd)),
    {
        Self::from_values(
            text_at(yaml_block, "user"),
            text_at(yaml_block, "passwd"),
            text_at(yaml_block, "db_name"),
            text_at(yaml_block, "host"),
            integer_at(yaml_block, "port"),
            env_passwd,
        )
    }

    /// The store that the values of a `database` block stand for, each
    /// with its default where it is not given. `env_passwd` is the password
    /// that the environment offers; it is used where the block gives none.
    pub fn from_values(
        user: Option<String>,
        passwd: Option<String>,
        db_name: Option<String>,
        host: Option<String>,
        port: Option<i64>,
        env_passwd: Option<String>,
    ) -> (db: Self)
        ensures
            db@ == db_from_values(
                text_of(user),
                text_of(passwd),
                text_of(db_name),
                text_of(host),
                port,
                text_of(env_passwd),
            ),
    {
        let user = or_default(user, "postgres");
        let passwd = match passwd {
            Some(text) => text,
            None => or_default(env_passwd, "infobserve"),
        };
        let db_name = or_default(db_name, "infobserve");
        let host = or_default(host, "localhost");
        let port = port_or_default(port, DEFAULT_DB_PORT);
        Self { user, passwd, db_name, host, port }
    }
}

impl Default for DbCfg {
    fn default() -> (db: Self)
        ensures
            db@ == default_db(),
    {
        Self {
            user: "postgres".to_owned(),
            passwd: "infobserve".to_owned(),
            db_name: "infobserve".to_owned(),
            host: "localhost".to_owned(),
            port: DEFAULT_DB_PORT,
        }
    }
}

impl RedisCfg {
    /// Reads the `redis` block of a configuration.
    fn from_block(yaml_block: &Yaml) -> (redis: Self)
        ensures
            redis@ == redis_in(*yaml_block),
    {
        Self::from_values(text_at(yaml_block, "host"), integer_at(yaml_block, "port"))
    }

    /// The queue that the values of a `redis` block stand for, each with
    /// its default where it is not given.
    pub fn from_values(host: Option<String>, port: Option<i64>) -> (redis: Self)
        ensures
            redis@ == redis_from_values(text_of(host), port),
    {
        let host = or_default(host, "localhost");
        let port = port_or_default(port, DEFAULT_REDIS_PORT);
        Self { host, port }
    }

    pub fn host(&self) -> (host: &str)
        ensures
            host@ == self@.host,
    {
        self.host.as_str()
    }

    pub fn port(&self) -> (port: u16)
        ensures
            port == self@.port,
    {
        self.port
    }
}

impl Default for RedisCfg {
    fn default() -> (redis: Self)
        ensures
            redis@ == default_redis(),
    {
        Self { host: "localhost".to_owned(), port: DEFAULT_REDIS_PORT }
    }
}

impl Config {
    pub fn workers(&self) -> (workers: &WorkerCfg)
        ensures
            workers@ == self@.workers,
    {
        &self.worker_cfg
    }

    pub fn db(&self) -> (db: &DbCfg)
        ensures
            db@ == self@.db,
    {
        &self.db_cfg
    }

    pub fn redis(&self) -> (redis: &RedisCfg)
        ensures
            redis@ == self@.redis,
    {
        &self.redis_cfg
    }

    pub fn yara_rule_dir(&self) -> (dir: &str)
        ensures
            dir@ == self@.yara_rule_dir,
    {
        self.yara_rule_dir.as_str()
    }

    /// Reads a configuration from its YAML text. `env_passwd` is the
    /// password that the environment offers for the store.
    pub fn from_string(yml: &str, env_passwd: Option<String>) -> (result: Result<
        Self,
        ConfigurationError,
    >)
        ensures
            text_outcome(yml@, text_of(env_passwd), config_view(result)),
    {
        if !can_load(yml) {
            return Err(ConfigurationError::TooManyIndicatorsError);
        }
        let docs = match load(yml) {
            Ok(docs) => docs,
            Err(error) => return Err(ConfigurationError::InvalidYamlError(error)),
        };
        if docs.len() == 0 {
            return Ok(Config::default());
        }
        let doc = &docs[0];
        let yara_rule_dir = or_default(text_at(doc, "yara_rule_dir"), "yara-rules/");
        let worker_cfg = match WorkerCfg::from_block(entry(doc, "workers")) {
            Ok(workers) => workers,
            Err(error) => return Err(error),
        };
        let db_cfg = DbCfg::from_block(entry(doc, "database"), env_passwd);
        let redis_cfg = RedisCfg::from_block(entry(doc, "redis"));
        Ok(Self { yara_rule_dir, worker_cfg, db_cfg, redis_cfg })
    }
}

impl Default for Config {
    fn default() -> (config: Self)
        ensures
            config@ == default_config(),
    {
        Self {
            yara_rule_dir: "yara-rules/".to_owned(),
            db_cfg: DbCfg::default(),
            worker_cfg: WorkerCfg::default(),
            redis_cfg: RedisCfg::default(),
        }
    }
}

} // verus!
