use ingestion::identity::{
    assign_event_id, get_event_id, resolve_event_id, resolve_or_generate, FRESH_ID_LENGTH,
};
use ingestion::models::{CustomEventPayload, Event, OutgoingLinkPayload};

fn custom_with_id(id: Option<&str>) -> Event {
    Event::Custom(CustomEventPayload {
        eventId: id.map(|s| s.to_string()),
        name: "click".to_string(),
        anonymousId: None,
        sessionId: None,
        timestamp: None,
        properties: None,
    })
}

fn link_with_id(id: &str) -> Event {
    Event::OutgoingLink(OutgoingLinkPayload {
        eventId: id.to_string(),
        anonymousId: None,
        sessionId: None,
        timestamp: None,
        href: "https://example.org".to_string(),
        text: None,
        properties: None,
    })
}

#[test]
fn the_supplied_identifier_is_read_as_it_is() {
    assert_eq!(get_event_id(&custom_with_id(Some("abc"))), Some("abc".to_string()));
    assert_eq!(get_event_id(&custom_with_id(Some(""))), Some(String::new()));
    assert_eq!(get_event_id(&custom_with_id(None)), None);
    assert_eq!(get_event_id(&link_with_id("l-1")), Some("l-1".to_string()));
}

#[test]
fn a_supplied_identifier_is_kept() {
    assert_eq!(resolve_event_id(Some("abc".to_string()), "fresh".to_string()), "abc");
    assert_eq!(assign_event_id(&custom_with_id(Some("abc"))), "abc");
    assert_eq!(assign_event_id(&link_with_id("l-1")), "l-1");
    assert_eq!(resolve_or_generate(Some(" ".to_string())), " ");
}

#[test]
fn a_missing_or_empty_identifier_is_replaced() {
    assert_eq!(resolve_event_id(None, "fresh".to_string()), "fresh");
    assert_eq!(resolve_event_id(Some(String::new()), "fresh".to_string()), "fresh");
    let for_missing = assign_event_id(&custom_with_id(None));
    let for_empty = assign_event_id(&link_with_id(""));
    assert_eq!(for_missing.chars().count(), FRESH_ID_LENGTH);
    assert_eq!(for_empty.chars().count(), FRESH_ID_LENGTH);
    assert!(!for_missing.is_empty());
}

#[test]
fn fresh_identifiers_are_hyphenated_and_differ() {
    let first = resolve_or_generate(None);
    let second = resolve_or_generate(None);
    assert_eq!(first.len(), 36);
    assert_eq!(second.len(), 36);
    assert_ne!(first, second);
    for (i, c) in first.chars().enumerate() {
        if i == 8 || i == 13 || i == 18 || i == 23 {
            assert_eq!(c, '-');
        } else {
            assert!(c.is_ascii_hexdigit());
        }
    }
}
