use infobserve_processor::config::Config;
use infobserve_processor::entities::Event;
use infobserve_processor::errors::{ConfigurationError, DeserializationError};

#[test]
fn configuration_errors_have_their_messages() {
    assert_eq!(
        ConfigurationError::BadWorkersKeyValue(String::from("many")).message(),
        "Unrecognized value for `workers` key: many"
    );
    assert_eq!(
        ConfigurationError::NoYaraRulesError.message(),
        "No yara rules could be loaded"
    );
    assert_eq!(
        ConfigurationError::NegativeWorkersError.message(),
        "Number of workers cannot be negative"
    );
    assert_eq!(
        ConfigurationError::TooManyIndicatorsError.message(),
        "Configuration holds too many indicators"
    );
    match Config::from_string("workers: [", None) {
        Err(error) => assert_eq!(error.message(), "Configuration is not valid YAML"),
        Ok(config) => panic!("unexpected: {:?}", config),
    }
}

#[test]
fn deserialization_errors_have_their_messages() {
    assert_eq!(
        DeserializationError::NoValueError(String::from("url")).message(),
        "Empty 'url' value when deserializing event"
    );
    assert_eq!(
        DeserializationError::MalformedValueError(String::from("size")).message(),
        "Malformed 'size' value when deserializing event"
    );
    match Event::from_json_str("{") {
        Err(error) => assert_eq!(error.message(), "Event is not valid JSON"),
        Ok(event) => panic!("unexpected: {:?}", event),
    }
}
