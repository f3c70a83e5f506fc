//! What the command line tells the process.
use vstd::prelude::*;
use vstd::string::*;

verus! {

/// The configuration file that is read when the command line names none.
pub open spec fn default_config_path() -> Seq<char> {
    "config.yaml"@
}

/// The command line's settings.
pub struct Cli {
    config_path: String,
}

impl View for Cli {
    type V = Seq<char>;

    /// The path of the configuration file.
    closed spec fn view(&self) -> Seq<char> {
        self.config_path@
    }
}

impl Cli {
    /// Builds the settings from the value of the `-c` / `--config` flag, if
    /// the flag was given.
    pub fn new(config: Option<String>) -> (cli: Cli)
        ensures
            cli@ == match config {
                Some(path) => path@,
                None => default_config_path(),
            },
    {
        match config {
            Some(path) => Cli { config_path: path },
            None => Cli { config_path: String::from_str("config.yaml") },
        }
    }

    /// The path of the configuration file.
    pub fn config_path(&self) -> (path: &str)
        ensures
            path@ == self@,
    {
        self.config_path.as_str()
    }
}

} // verus!
