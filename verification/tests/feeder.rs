use infobserve_processor::errors::DeserializationError;
use infobserve_processor::feeder::{react, react_to_payload, FeedAction, Message};

const VALID: &str = r#"{"url": "https://pastebin.com/bad-paste", "size": 550,
    "source": "pastebin", "raw_content": "pw: helloworld", "filename": "bad-paste.yml",
    "creator": "bad-user", "created_at": "2020/02/20-17:18:19",
    "discovered_at": "2020/02/21-01:02:03"}"#;

fn popped(payload: &str) -> Option<Message> {
    Message::from_reply(vec![String::from("events"), String::from(payload)])
}

#[test]
fn the_sentinel_stops_the_feeder() {
    assert!(matches!(react_to_payload("QUIT"), FeedAction::Stop));
    assert!(matches!(react(popped("QUIT")), FeedAction::Stop));
}

#[test]
fn only_the_exact_sentinel_stops_the_feeder() {
    for payload in ["quit", "QUIT ", " QUIT", "\"QUIT\"", "QUITQUIT"] {
        assert!(matches!(react_to_payload(payload), FeedAction::Skip(_)));
    }
}

#[test]
fn a_valid_envelope_is_sent_on() {
    match react(popped(VALID)) {
        FeedAction::Forward(event) => {
            assert_eq!(event.raw_content(), "pw: helloworld");
            assert_eq!(event.size(), 550);
            assert_eq!(event.id(), None);
        }
        other => panic!("unexpected: {:?}", other),
    }
}

#[test]
fn a_valid_event_and_then_the_sentinel() {
    let mut sent = Vec::new();
    let mut pops = 0;
    for payload in [VALID, "QUIT", VALID] {
        pops += 1;
        match react(popped(payload)) {
            FeedAction::Forward(event) => sent.push(event),
            FeedAction::Stop => break,
            FeedAction::Retry | FeedAction::Skip(_) => {}
        }
    }
    assert_eq!(pops, 2);
    assert_eq!(sent.len(), 1);
    assert_eq!(sent[0].url(), "https://pastebin.com/bad-paste");
}

#[test]
fn an_envelope_without_url_is_skipped() {
    let payload = VALID.replace("\"url\"", "\"link\"");
    match react_to_payload(&payload) {
        FeedAction::Skip(DeserializationError::NoValueError(field)) => assert_eq!(field, "url"),
        other => panic!("unexpected: {:?}", other),
    }
}

#[test]
fn a_payload_that_is_no_json_is_skipped() {
    assert!(matches!(
        react_to_payload("not json"),
        FeedAction::Skip(DeserializationError::InvalidJsonError(_))
    ));
}

#[test]
fn a_failed_pop_is_tried_again() {
    assert!(matches!(react(None), FeedAction::Retry));
}

#[test]
fn a_message_is_the_name_and_the_payload() {
    let message = Message::from_reply(vec![
        String::from("events"),
        String::from("QUIT"),
        String::from("more"),
    ])
    .unwrap();
    assert_eq!(message.name(), "events");
    assert_eq!(message.payload(), "QUIT");
}

#[test]
fn a_short_reply_is_no_message() {
    assert!(Message::from_reply(vec![]).is_none());
    assert!(Message::from_reply(vec![String::from("events")]).is_none());
    assert!(matches!(
        react(Message::from_reply(vec![String::from("QUIT")])),
        FeedAction::Retry
    ));
}
