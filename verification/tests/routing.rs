use ingestion::json::{Json, Number};
use ingestion::models::{CustomEventPayload, Event, EventKind, OutgoingLinkPayload};
use ingestion::route::{get_event_type, get_topic_name};

#[test]
fn known_kinds_have_their_channels() {
    assert_eq!(get_topic_name("track"), "analytics-events");
    assert_eq!(get_topic_name("error"), "analytics-errors");
    assert_eq!(get_topic_name("web_vitals"), "analytics-web-vitals");
    assert_eq!(get_topic_name("custom"), "analytics-custom-events");
    assert_eq!(get_topic_name("outgoing_link"), "analytics-outgoing-links");
}

#[test]
fn unknown_kind_goes_to_the_default_channel() {
    assert_eq!(get_topic_name("purchase"), "analytics-events");
    assert_eq!(get_topic_name(""), "analytics-events");
    assert_eq!(get_topic_name("Track"), "analytics-events");
    assert_eq!(get_topic_name("track "), "analytics-events");
    assert_eq!(get_topic_name("web-vitals"), "analytics-events");
}

#[test]
fn channels_of_the_five_kinds_are_distinct() {
    let kinds = [
        EventKind::Track,
        EventKind::Error,
        EventKind::WebVitals,
        EventKind::Custom,
        EventKind::OutgoingLink,
    ];
    for (i, a) in kinds.iter().enumerate() {
        for (j, b) in kinds.iter().enumerate() {
            assert_eq!(a.topic() == b.topic(), i == j);
            assert_eq!(a.as_str() == b.as_str(), i == j);
        }
    }
}

#[test]
fn a_kind_is_routed_as_its_name_is() {
    let kinds = [
        EventKind::Track,
        EventKind::Error,
        EventKind::WebVitals,
        EventKind::Custom,
        EventKind::OutgoingLink,
    ];
    for kind in kinds {
        assert_eq!(get_topic_name(kind.as_str()), kind.topic());
    }
}

#[test]
fn event_type_names_the_kind() {
    let custom = Event::Custom(CustomEventPayload {
        eventId: None,
        name: "click".to_string(),
        anonymousId: None,
        sessionId: None,
        timestamp: Some(7),
        properties: Some(Json::Number(Number::Int(1))),
    });
    assert_eq!(get_event_type(&custom), "custom");
    assert_eq!(custom.kind(), EventKind::Custom);
    let link = Event::OutgoingLink(OutgoingLinkPayload {
        eventId: "e".to_string(),
        anonymousId: None,
        sessionId: None,
        timestamp: None,
        href: "https://example.org".to_string(),
        text: None,
        properties: None,
    });
    assert_eq!(get_event_type(&link), "outgoing_link");
    assert_eq!(get_topic_name(get_event_type(&link)), "analytics-outgoing-links");
}
