use ingestion::identity::FRESH_ID_LENGTH;
use ingestion::json::{Json, Number};
use ingestion::limits::Field;
use ingestion::models::{CustomEventPayload, Event, EventKind};
use ingestion::pipeline::{
    dispatch, ingest_errors, ingest_outgoing, ingest_single, ingest_vitals, process_event,
    process_event_with, respond, Delivery, Dispatch, Reply, Step,
};
use ingestion::validate::Violation;

fn string(value: &str) -> Json {
    Json::Text(value.to_string())
}

fn record(list: Vec<(&str, Json)>) -> Json {
    Json::Object(list.into_iter().map(|(name, value)| (name.to_string(), value)).collect())
}

fn error_payload() -> Json {
    record(vec![
        ("anonymousId", string("a1")),
        ("sessionId", string("s1")),
        ("timestamp", Json::Number(Number::Int(1700000000000))),
        ("path", string("/x")),
        ("message", string("boom")),
    ])
}

fn click(id: Option<&str>, name: &str) -> Event {
    Event::Custom(CustomEventPayload {
        eventId: id.map(|s| s.to_string()),
        name: name.to_string(),
        anonymousId: None,
        sessionId: None,
        timestamp: None,
        properties: None,
    })
}

fn published(step: Step) -> Dispatch {
    match step {
        Step::Publish(out) => out,
        Step::Answer(reply) => panic!("answered {:?}", reply),
    }
}

#[test]
fn an_error_payload_is_published_on_the_error_channel() {
    let out = published(ingest_errors(error_payload()));
    assert_eq!(out.topic, "analytics-errors");
    assert_eq!(out.kind, EventKind::Error);
    assert_eq!(out.key.chars().count(), FRESH_ID_LENGTH);
    let Event::Error(payload) = &out.event else { panic!("not an error event") };
    assert_eq!(payload.message, "boom");
    assert_eq!(payload.base.base.eventId, None);
    let reply = respond(out.kind, Delivery::Published);
    assert_eq!(reply, Reply::Success { kind: EventKind::Error });
    assert_eq!(reply.status_code(), 200);
    assert_eq!(reply.message(), None);
    assert_eq!(EventKind::Error.as_str(), "error");
}

#[test]
fn a_valid_event_of_each_kind_is_published_as_that_kind() {
    let track = record(vec![
        ("name", string("screen_view")),
        ("anonymousId", string("a")),
        ("sessionId", string("s")),
        ("sessionStartTime", Json::Number(Number::Int(1))),
        ("timestamp", Json::Number(Number::Int(2))),
        ("path", string("/")),
        ("title", string("Home")),
        ("referrer", string("")),
        ("screen_resolution", string("1x1")),
        ("viewport_size", string("1x1")),
        ("timezone", string("UTC")),
        ("language", string("en")),
    ]);
    let vitals = record(vec![
        ("anonymousId", string("a")),
        ("sessionId", string("s")),
        ("timestamp", Json::Number(Number::Int(2))),
        ("path", string("/")),
    ]);
    let custom = record(vec![("name", string("click"))]);
    let link = record(vec![("eventId", string("l-1")), ("href", string("https://example.org"))]);
    let cases = [
        (ingest_single(track), EventKind::Track, "analytics-events", "track"),
        (ingest_single(error_payload()), EventKind::Error, "analytics-errors", "error"),
        (ingest_single(vitals.clone()), EventKind::WebVitals, "analytics-web-vitals", "web_vitals"),
        (ingest_vitals(vitals), EventKind::WebVitals, "analytics-web-vitals", "web_vitals"),
        (ingest_single(custom), EventKind::Custom, "analytics-custom-events", "custom"),
        (ingest_single(link.clone()), EventKind::OutgoingLink, "analytics-outgoing-links", "outgoing_link"),
        (ingest_outgoing(link), EventKind::OutgoingLink, "analytics-outgoing-links", "outgoing_link"),
    ];
    for (step, kind, topic, name) in cases {
        let out = published(step);
        assert_eq!(out.kind, kind);
        assert_eq!(out.event.kind(), kind);
        assert_eq!(out.topic, topic);
        assert!(!out.key.is_empty());
        let reply = respond(out.kind, Delivery::Published);
        assert_eq!(reply, Reply::Success { kind });
        assert_eq!(reply.status_code(), 200);
        assert_eq!(kind.as_str(), name);
    }
}

#[test]
fn the_key_is_the_supplied_identifier() {
    let out = published(process_event(click(Some("evt-42"), "click")));
    assert_eq!(out.key, "evt-42");
    let out = published(process_event_with(click(Some("evt-42"), "click"), "fresh".to_string()));
    assert_eq!(out.key, "evt-42");
    let out = published(ingest_outgoing(record(vec![
        ("eventId", string("l-7")),
        ("href", string("https://example.org")),
    ])));
    assert_eq!(out.key, "l-7");
}

#[test]
fn the_key_is_fresh_where_no_identifier_is_supplied() {
    let out = published(process_event_with(click(None, "click"), "fresh".to_string()));
    assert_eq!(
        out,
        Dispatch {
            topic: "analytics-custom-events",
            key: "fresh".to_string(),
            kind: EventKind::Custom,
            event: click(None, "click"),
        }
    );
    let out = published(process_event_with(click(Some(""), "click"), "fresh".to_string()));
    assert_eq!(out.key, "fresh");
    let first = published(process_event(click(None, "click")));
    let second = published(process_event(click(Some(""), "click")));
    assert_eq!(first.key.chars().count(), FRESH_ID_LENGTH);
    assert_eq!(second.key.chars().count(), FRESH_ID_LENGTH);
    assert_ne!(first.key, second.key);
}

#[test]
fn an_invalid_event_is_answered_with_its_violations() {
    let long_name = "n".repeat(256);
    let expected = Reply::Invalid {
        violations: vec![Violation { field: Field::Name, max: 255, actual: 256 }],
    };
    assert_eq!(process_event(click(None, &long_name)), Step::Answer(expected.clone()));
    assert_eq!(
        process_event_with(click(None, &long_name), "fresh".to_string()),
        Step::Answer(expected.clone())
    );
    assert_eq!(ingest_single(record(vec![("name", string(&long_name))])), Step::Answer(expected.clone()));
    assert_eq!(expected.status_code(), 400);
    assert_eq!(expected.message(), Some("Validation failed"));
    assert_eq!(
        expected.details(),
        Some(&vec![Violation { field: Field::Name, max: 255, actual: 256 }])
    );
    assert_eq!(Reply::Unrecognized.details(), None);
    assert_eq!(Reply::Success { kind: EventKind::Custom }.details(), None);
}

#[test]
fn an_unrecognized_payload_is_answered_as_such() {
    let reply = Reply::Unrecognized;
    assert_eq!(ingest_single(record(vec![])), Step::Answer(reply.clone()));
    assert_eq!(ingest_single(Json::Null), Step::Answer(reply.clone()));
    assert_eq!(ingest_vitals(record(vec![("name", string("click"))])), Step::Answer(reply.clone()));
    assert_eq!(ingest_errors(record(vec![("name", string("click"))])), Step::Answer(reply.clone()));
    assert_eq!(ingest_outgoing(error_payload()), Step::Answer(reply.clone()));
    assert_eq!(
        ingest_outgoing(record(vec![("eventId", string("l-1"))])),
        Step::Answer(reply.clone())
    );
    assert_eq!(reply.status_code(), 400);
    assert_eq!(reply.message(), Some("Unrecognized event shape"));
}

#[test]
fn a_failed_delivery_is_answered_with_status_500() {
    let reply = respond(EventKind::Track, Delivery::NotPublished);
    assert_eq!(reply, Reply::NotPublished);
    assert_eq!(reply.status_code(), 500);
    assert_eq!(reply.message(), Some("Failed to process event"));
    assert_eq!(reply.details(), None);
    let reply = respond(EventKind::Track, Delivery::NotEncoded);
    assert_eq!(reply, Reply::NotEncoded);
    assert_eq!(reply.status_code(), 500);
    assert_eq!(reply.message(), Some("Serialization failed"));
    assert_ne!(reply.message(), Reply::NotPublished.message());
    assert_eq!(reply.details(), None);
}

#[test]
fn a_dispatch_carries_the_event_to_its_channel() {
    let out = dispatch(click(Some("x"), "click"), "key".to_string());
    assert_eq!(out.topic, "analytics-custom-events");
    assert_eq!(out.key, "key");
    assert_eq!(out.kind, EventKind::Custom);
    assert_eq!(out.event, click(Some("x"), "click"));
}
