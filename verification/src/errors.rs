//! The errors that configuration and decoding report.
use vstd::prelude::*;
use vstd::string::*;

verus! {

/// Why a configuration is refused.
#[derive(Debug)]
pub enum ConfigurationError {
    /// `workers` holds a word other than `auto`.
    BadWorkersKeyValue(String),
    /// No rule file was found.
    NoYaraRulesError,
    /// A worker count is zero or negative.
    NegativeWorkersError,
    /// The configuration is no YAML text.
    InvalidYamlError(yaml_rust::ScanError),
    /// The configuration holds more indicators (`-`, `:`, `?`, `[`, `{`)
    /// than a text may hold to be loaded.
    TooManyIndicatorsError,
}

/// Why a configuration is refused, without the parser's own words.
pub enum ConfigFailure {
    BadWorkersKeyValue(Seq<char>),
    NoYaraRules,
    NegativeWorkers,
    InvalidYaml,
    TooManyIndicators,
}

impl View for ConfigurationError {
    type V = ConfigFailure;

    open spec fn view(&self) -> ConfigFailure {
        match *self {
            ConfigurationError::BadWorkersKeyValue(word) => ConfigFailure::BadWorkersKeyValue(
                word@,
            ),
            ConfigurationError::NoYaraRulesError => ConfigFailure::NoYaraRules,
            ConfigurationError::NegativeWorkersError => ConfigFailure::NegativeWorkers,
            ConfigurationError::InvalidYamlError(_) => ConfigFailure::InvalidYaml,
            ConfigurationError::TooManyIndicatorsError => ConfigFailure::TooManyIndicators,
        }
    }
}

/// Why an envelope is refused.
#[derive(Debug)]
pub enum DeserializationError {
    /// The named field is missing, empty or of the wrong kind.
    NoValueError(String),
    /// The named field is there, but holds a negative size or a timestamp
    /// that cannot be read.
    MalformedValueError(String),
    /// The envelope is no JSON text.
    InvalidJsonError(serde_json::Error),
}

/// Why an envelope is refused, without the parser's own words.
pub enum DecodeFailure {
    NoValue(Seq<char>),
    MalformedValue(Seq<char>),
    InvalidJson,
}

impl View for DeserializationError {
    type V = DecodeFailure;

    open spec fn view(&self) -> DecodeFailure {
        match *self {
            DeserializationError::NoValueError(field) => DecodeFailure::NoValue(field@),
            DeserializationError::MalformedValueError(field) => DecodeFailure::MalformedValue(
                field@,
            ),
            DeserializationError::InvalidJsonError(_) => DecodeFailure::InvalidJson,
        }
    }
}

impl ConfigurationError {
    /// The text shown to the operator.
    pub fn message(&self) -> (text: String)
        ensures
            text@ == match self@ {
                ConfigFailure::BadWorkersKeyValue(word) => "Unrecognized value for `workers` key: "@
                    + word,
                ConfigFailure::NoYaraRules => "No yara rules could be loaded"@,
                ConfigFailure::NegativeWorkers => "Number of workers cannot be negative"@,
                ConfigFailure::InvalidYaml => "Configuration is not valid YAML"@,
                ConfigFailure::TooManyIndicators => "Configuration holds too many indicators"@,
            },
    {
        match self {
            ConfigurationError::BadWorkersKeyValue(word) => String::from_str(
                "Unrecognized value for `workers` key: ",
            ).concat(word.as_str()),
            ConfigurationError::NoYaraRulesError => String::from_str(
                "No yara rules could be loaded",
            ),
            ConfigurationError::NegativeWorkersError => String::from_str(
                "Number of workers cannot be negative",
            ),
            ConfigurationError::InvalidYamlError(_) => String::from_str(
                "Configuration is not valid YAML",
            ),
            ConfigurationError::TooManyIndicatorsError => String::from_str(
                "Configuration holds too many indicators",
            ),
        }
    }
}

impl DeserializationError {
    /// The text shown to the operator.
    pub fn message(&self) -> (text: String)
        ensures
            text@ == match self@ {
                DecodeFailure::NoValue(field) => "Empty '"@ + field
                    + "' value when deserializing event"@,
                DecodeFailure::MalformedValue(field) => "Malformed '"@ + field
                    + "' value when deserializing event"@,
                DecodeFailure::InvalidJson => "Event is not valid JSON"@,
            },
    {
        match self {
            DeserializationError::NoValueError(field) => String::from_str("Empty '").concat(
                field.as_str(),
            ).concat("' value when deserializing event"),
            DeserializationError::MalformedValueError(field) => String::from_str(
                "Malformed '",
            ).concat(field.as_str()).concat("' value when deserializing event"),
            DeserializationError::InvalidJsonError(_) => String::from_str(
                "Event is not valid JSON",
            ),
        }
    }
}

} // verus!
