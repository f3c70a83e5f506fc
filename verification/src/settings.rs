//! The settings of a process that scans and loads only: the rule
//! directory, the workers and the store, read from a YAML text.
use crate::config::{
    db_from_values, default_db_host, default_db_passwd, default_db_user, default_workers,
    default_yara_rule_dir, text_or, workers_from_counts, workers_view, DbCfg, DbCfgView,
    WorkerCfg, WorkerCfgView, DEFAULT_DB_PORT,
};
use crate::errors::{ConfigFailure, ConfigurationError};
use crate::utils::text_of;
use crate::yaml::{
    can_load, entry, load, loadable, yaml_documents, yaml_entry, yaml_integer, yaml_text,
};
use vstd::prelude::*;
use vstd::string::*;
use yaml_rust::Yaml;

verus! {

/// The database that is used where the settings name none.
pub open spec fn default_database() -> Seq<char> {
    "infobserve"@
}

/// What a [`Settings`] holds.
pub struct SettingsView {
    pub yara_rule_dir: Seq<char>,
    pub workers: WorkerCfgView,
    pub db: DbCfgView,
}

/// The settings.
#[derive(PartialEq, Debug)]
pub struct Settings {
    yara_rule_dir: String,
    worker_settings: WorkerCfg,
    db_settings: DbCfg,
}

impl View for Settings {
    type V = SettingsView;

    closed spec fn view(&self) -> SettingsView {
        SettingsView {
            yara_rule_dir: self.yara_rule_dir@,
            workers: self.worker_settings@,
            db: self.db_settings@,
        }
    }
}

/// The store that is used where the settings say nothing of it.
pub open spec fn default_db_settings() -> DbCfgView {
    DbCfgView {
        user: default_db_user(),
        passwd: default_db_passwd(),
        db_name: default_database(),
        host: default_db_host(),
        port: DEFAULT_DB_PORT,
    }
}

/// The settings that are used where there are none.
pub open spec fn default_settings() -> SettingsView {
    SettingsView {
        yara_rule_dir: default_yara_rule_dir(),
        workers: default_workers(),
        db: default_db_settings(),
    }
}

/// The workers that a `workers` block stands for: its three counts, each
/// with its default where it is not given.
pub open spec fn worker_settings_in(block: Yaml) -> Result<WorkerCfgView, ConfigFailure> {
    workers_from_counts(
        yaml_integer(yaml_entry(block, "processors"@)),
        yaml_integer(yaml_entry(block, "feeders"@)),
        yaml_integer(yaml_entry(block, "loaders"@)),
    )
}

/// The store that a `database` block stands for. The name of the database
/// stands under the key `database`.
pub open spec fn db_settings_in(block: Yaml, env_passwd: Option<Seq<char>>) -> DbCfgView {
    db_from_values(
        yaml_text(yaml_entry(block, "user"@)),
        yaml_text(yaml_entry(block, "passwd"@)),
        Some(text_or(yaml_text(yaml_entry(block, "database"@)), default_database())),
        yaml_text(yaml_entry(block, "host"@)),
        yaml_integer(yaml_entry(block, "port"@)),
        env_passwd,
    )
}

/// The settings that a document stands for, or why it stands for none.
pub open spec fn settings_in(document: Yaml, env_passwd: Option<Seq<char>>) -> Result<
    SettingsView,
    ConfigFailure,
> {
    match worker_settings_in(yaml_entry(document, "workers"@)) {
        Ok(workers) => Ok(
            SettingsView {
                yara_rule_dir: text_or(
                    yaml_text(yaml_entry(document, "yara_rule_dir"@)),
                    default_yara_rule_dir(),
                ),
                workers,
                db: db_settings_in(yaml_entry(document, "database"@), env_passwd),
            },
        ),
        Err(failure) => Err(failure),
    }
}

/// The settings that a text stands for: an error where it holds too many
/// indicators to be loaded or is no YAML, the defaults where it holds no
/// document, and else what its first document stands for.
pub open spec fn settings_of(text: Seq<char>, env_passwd: Option<Seq<char>>) -> Result<
    SettingsView,
    ConfigFailure,
> {
    if !loadable(text) {
        Err(ConfigFailure::TooManyIndicators)
    } else {
        match yaml_documents(text) {
            None => Err(ConfigFailure::InvalidYaml),
            Some(documents) => if documents.len() == 0 {
                Ok(default_settings())
            } else {
                settings_in(documents[0], env_passwd)
            },
        }
    }
}

/// The view of a result that holds settings.
pub open spec fn settings_view(result: Result<Settings, ConfigurationError>) -> Result<
    SettingsView,
    ConfigFailure,
> {
    match result {
        Ok(settings) => Ok(settings@),
        Err(error) => Err(error@),
    }
}

fn text_at(block: &Yaml, key: &str) -> (text: Option<String>)
    ensures
        text_of(text) == yaml_text(yaml_entry(*block, key@)),
{
    match entry(block, key).as_str() {
        Some(text) => Some(text.to_owned()),
        None => None,
    }
}

fn worker_settings_from_block(block: &Yaml) -> (result: Result<WorkerCfg, ConfigurationError>)
    ensures
        workers_view(result) == worker_settings_in(*block),
{
    WorkerCfg::from_counts(
        entry(block, "processors").as_i64(),
        entry(block, "feeders").as_i64(),
        entry(block, "loaders").as_i64(),
    )
}

fn db_settings_from_block(yaml_block: &Yaml, env_passwd: Option<String>) -> (db: DbCfg)
    ensures
        db@ == db_settings_in(*yaml_block, text_of(env_passwd)),
{
    let database = match text_at(yaml_block, "database") {
        Some(name) => name,
        None => "infobserve".to_owned(),
    };
    DbCfg::from_values(
        text_at(yaml_block, "user"),
        text_at(yaml_block, "passwd"),
        Some(database),
        text_at(yaml_block, "host"),
        entry(yaml_block, "port").as_i64(),
        env_passwd,
    )
}

impl Settings {
    pub fn num_processors(&self) -> (count: i32)
        ensures
            count == self@.workers.num_processors,
            count >= 1,
    {
        self.worker_settings.num_processors()
    }

    pub fn num_feeders(&self) -> (count: i32)
        ensures
            count == self@.workers.num_feeders,
            count >= 1,
    {
        self.worker_settings.num_feeders()
    }

    pub fn num_loaders(&self) -> (count: i32)
        ensures
            count == self@.workers.num_loaders,
            count >= 1,
    {
        self.worker_settings.num_loaders()
    }

    pub fn yara_rule_dir(&self) -> (dir: &str)
        ensures
            dir@ == self@.yara_rule_dir,
    {
        self.yara_rule_dir.as_str()
    }

    pub fn db_user(&self) -> (user: &str)
        ensures
            user@ == self@.db.user,
    {
        self.db_settings.user()
    }

    pub fn db_passwd(&self) -> (passwd: &str)
        ensures
            passwd@ == self@.db.passwd,
    {
        self.db_settings.passwd()
    }

    pub fn db_database(&self) -> (database: &str)
        ensures
            database@ == self@.db.db_name,
    {
        self.db_settings.db_name()
    }

    pub fn db_host(&self) -> (host: &str)
        ensures
            host@ == self@.db.host,
    {
        self.db_settings.host()
    }

    pub fn db_port(&self) -> (port: u16)
        ensures
            port == self@.db.port,
    {
        self.db_settings.port()
    }

    /// Reads the settings from their YAML text. `env_passwd` is the
    /// password that the environment offers for the store.
    pub fn from_string(yml: &str, env_passwd: Option<String>) -> (result: Result<
        Settings,
        ConfigurationError,
    >)
        ensures
            settings_view(result) == settings_of(yml@, text_of(env_passwd)),
    {
        if !can_load(yml) {
            return Err(ConfigurationError::TooManyIndicatorsError);
        }
        let docs = match load(yml) {
            Ok(docs) => docs,
            Err(error) => return Err(ConfigurationError::InvalidYamlError(error)),
        };
        if docs.len() == 0 {
            return Ok(Settings::default());
        }
        let doc = &docs[0];
        let yara_rule_dir = match text_at(doc, "yara_rule_dir") {
            Some(dir) => dir,
            None => "yara-rules/".to_owned(),
        };
        let worker_settings = match worker_settings_from_block(entry(doc, "workers")) {
            Ok(workers) => workers,
            Err(error) => return Err(error),
        };
        let db_settings = db_settings_from_block(entry(doc, "database"), env_passwd);
        Ok(Self { yara_rule_dir, worker_settings, db_settings })
    }
}

impl Default for Settings {
    fn default() -> (settings: Self)
        ensures
            settings@ == default_settings(),
    {
        Self {
            yara_rule_dir: "yara-rules/".to_owned(),
            db_settings: DbCfg::from_values(
                None,
                None,
                Some("infobserve".to_owned()),
                None,
                None,
                None,
            ),
            worker_settings: WorkerCfg::default(),
        }
    }
}

} // verus!
