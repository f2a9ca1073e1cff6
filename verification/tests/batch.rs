use ingestion::batch::{
    plan_item, plan_item_with, settle_item, BatchResponse, ItemPlan, ItemResult, Outcome, Tally,
};
use ingestion::identity::FRESH_ID_LENGTH;
use ingestion::json::{Json, Number};
use ingestion::limits::Field;
use ingestion::models::EventKind;
use ingestion::pipeline::{Delivery, Dispatch};
use ingestion::validate::Violation;

fn word(value: &str) -> Json {
    Json::Text(value.to_string())
}

fn item(list: Vec<(&str, Json)>) -> Json {
    Json::Object(list.into_iter().map(|(name, value)| (name.to_string(), value)).collect())
}

fn custom_item(id: &str, name: &str) -> Json {
    item(vec![("eventId", word(id)), ("name", word(name))])
}

fn link_item(id: &str) -> Json {
    item(vec![("eventId", word(id)), ("href", word("https://example.org"))])
}

fn vitals_item(id: &str) -> Json {
    item(vec![
        ("eventId", word(id)),
        ("anonymousId", word("a")),
        ("sessionId", word("s")),
        ("timestamp", Json::Number(Number::Int(1))),
        ("path", word("/")),
    ])
}

fn error_item(id: &str) -> Json {
    item(vec![
        ("eventId", word(id)),
        ("anonymousId", word("a")),
        ("sessionId", word("s")),
        ("timestamp", Json::Number(Number::Int(1))),
        ("path", word("/")),
        ("message", word("boom")),
    ])
}

fn track_item(id: &str) -> Json {
    item(vec![
        ("eventId", word(id)),
        ("name", word("screen_view")),
        ("anonymousId", word("a")),
        ("sessionId", word("s")),
        ("sessionStartTime", Json::Number(Number::Int(1))),
        ("timestamp", Json::Number(Number::Int(2))),
        ("path", word("/")),
        ("title", word("Home")),
        ("referrer", word("")),
        ("screen_resolution", word("1x1")),
        ("viewport_size", word("1x1")),
        ("timezone", word("UTC")),
        ("language", word("en")),
    ])
}

/// Walks a batch as a caller does, with a broker that takes every message but those
/// whose key is in `refused`.
fn run(items: Vec<Json>, refused: &[&str]) -> (BatchResponse, Vec<Dispatch>) {
    let mut batch = BatchResponse::new();
    let mut sent = Vec::new();
    for raw in items {
        batch = match plan_item(raw) {
            ItemPlan::Done(result) => batch.record(result),
            ItemPlan::Publish(out) => {
                let delivery = if refused.contains(&out.key.as_str()) {
                    Delivery::NotPublished
                } else {
                    Delivery::Published
                };
                let result = settle_item(&out, &delivery);
                if delivery == Delivery::Published {
                    sent.push(out);
                }
                batch.record(result)
            }
        };
    }
    (batch, sent)
}

fn success(id: &str, kind: EventKind) -> ItemResult {
    ItemResult { event_id: id.to_string(), outcome: Outcome::Success { kind } }
}

#[test]
fn an_empty_batch_has_nothing_processed() {
    let batch = BatchResponse::new();
    assert_eq!(batch.processed(), 0);
    assert_eq!(
        batch.batched(),
        Tally { track: 0, error: 0, web_vitals: 0, custom: 0, outgoing_link: 0 }
    );
    assert!(batch.results().is_empty());
}

#[test]
fn a_custom_event_and_a_link_without_href() {
    let items = vec![
        item(vec![("name", word("click"))]),
        item(vec![("eventId", word("l-1")), ("text", word("no href"))]),
    ];
    let (batch, sent) = run(items, &[]);
    assert_eq!(batch.processed(), 1);
    assert_eq!(batch.batched().custom, 1);
    assert_eq!(batch.batched().outgoing_link, 0);
    assert_eq!(batch.results().len(), 2);
    assert_eq!(batch.results()[0].outcome, Outcome::Success { kind: EventKind::Custom });
    assert_eq!(batch.results()[0].event_id.chars().count(), FRESH_ID_LENGTH);
    assert_eq!(
        batch.results()[1],
        ItemResult { event_id: "l-1".to_string(), outcome: Outcome::Unrecognized }
    );
    assert_eq!(batch.results()[1].outcome.message(), Some("Unrecognized event shape"));
    assert_eq!(batch.results()[1].outcome.kind(), None);
    assert_eq!(sent.len(), 1);
    assert_eq!(sent[0].topic, "analytics-custom-events");
    assert_eq!(sent[0].key, batch.results()[0].event_id);
}

#[test]
fn one_malformed_item_leaves_the_others_alone() {
    let long_name = "n".repeat(256);
    for k in 0..5 {
        let mut items = vec![
            track_item("t-0"),
            error_item("e-1"),
            vitals_item("v-2"),
            custom_item("c-3", "click"),
            link_item("l-4"),
        ];
        items[k] = custom_item("bad", &long_name);
        let (batch, sent) = run(items, &[]);
        assert_eq!(batch.processed(), 4);
        assert_eq!(batch.results().len(), 5);
        assert_eq!(sent.len(), 4);
        let expected = [
            success("t-0", EventKind::Track),
            success("e-1", EventKind::Error),
            success("v-2", EventKind::WebVitals),
            success("c-3", EventKind::Custom),
            success("l-4", EventKind::OutgoingLink),
        ];
        let mut errors = 0;
        for (i, result) in batch.results().iter().enumerate() {
            if i == k {
                errors += 1;
                assert_eq!(
                    *result,
                    ItemResult {
                        event_id: "bad".to_string(),
                        outcome: Outcome::Invalid {
                            kind: EventKind::Custom,
                            violations: vec![Violation {
                                field: Field::Name,
                                max: 255,
                                actual: 256
                            }],
                        },
                    }
                );
                assert_eq!(result.outcome.message(), Some("Validation failed"));
                assert_eq!(result.outcome.kind(), Some(EventKind::Custom));
            } else {
                assert_eq!(*result, expected[i]);
            }
        }
        assert_eq!(errors, 1);
        let tally = batch.batched();
        let counts = [tally.track, tally.error, tally.web_vitals, tally.custom, tally.outgoing_link];
        for (i, count) in counts.iter().enumerate() {
            assert_eq!(*count, if i == k { 0 } else { 1 });
        }
    }
}

#[test]
fn each_kind_is_counted() {
    let items = vec![
        custom_item("c-1", "a"),
        track_item("t-1"),
        custom_item("c-2", "b"),
        link_item("l-1"),
        Json::Null,
        error_item("e-1"),
        custom_item("c-3", "c"),
        vitals_item("v-1"),
        track_item("t-2"),
    ];
    let (batch, sent) = run(items, &["c-2", "t-2"]);
    assert_eq!(batch.processed(), 6);
    assert_eq!(
        batch.batched(),
        Tally { track: 1, error: 1, web_vitals: 1, custom: 2, outgoing_link: 1 }
    );
    let ids: Vec<&str> = batch.results().iter().map(|r| r.event_id.as_str()).collect();
    assert_eq!(ids[..4], ["c-1", "t-1", "c-2", "l-1"]);
    assert_eq!(ids[4].chars().count(), FRESH_ID_LENGTH);
    assert_eq!(ids[5..], ["e-1", "c-3", "v-1", "t-2"]);
    assert_eq!(batch.results()[2].outcome, Outcome::NotPublished { kind: EventKind::Custom });
    assert_eq!(batch.results()[2].outcome.message(), Some("Failed to send to Kafka"));
    assert_eq!(batch.results()[4].outcome, Outcome::Unrecognized);
    assert_eq!(batch.results()[8].outcome, Outcome::NotPublished { kind: EventKind::Track });
    let keys: Vec<&str> = sent.iter().map(|out| out.key.as_str()).collect();
    assert_eq!(keys, ["c-1", "t-1", "l-1", "e-1", "c-3", "v-1"]);
}

#[test]
fn an_item_is_planned_with_the_identifier_at_hand() {
    let ItemPlan::Publish(out) = plan_item_with(custom_item("", "click"), "fresh".to_string())
    else {
        panic!("nothing to publish")
    };
    assert_eq!(out.key, "fresh");
    let plan = plan_item_with(item(vec![("name", word("click"))]), "fresh".to_string());
    let ItemPlan::Publish(out) = plan else { panic!("nothing to publish") };
    assert_eq!(out.key, "fresh");
    assert_eq!(out.topic, "analytics-custom-events");
    assert_eq!(out.kind, EventKind::Custom);
    assert_eq!(
        plan_item_with(Json::Array(vec![]), "fresh".to_string()),
        ItemPlan::Done(ItemResult { event_id: "fresh".to_string(), outcome: Outcome::Unrecognized })
    );
    assert_eq!(
        plan_item_with(item(vec![("eventId", word("own"))]), "fresh".to_string()),
        ItemPlan::Done(ItemResult { event_id: "own".to_string(), outcome: Outcome::Unrecognized })
    );
    assert_eq!(
        plan_item_with(item(vec![("eventId", Json::Bool(true))]), "fresh".to_string()),
        ItemPlan::Done(ItemResult { event_id: "fresh".to_string(), outcome: Outcome::Unrecognized })
    );
    assert_eq!(
        plan_item_with(custom_item("own", &"n".repeat(300)), "fresh".to_string()),
        ItemPlan::Done(ItemResult {
            event_id: "own".to_string(),
            outcome: Outcome::Invalid {
                kind: EventKind::Custom,
                violations: vec![Violation { field: Field::Name, max: 255, actual: 300 }],
            },
        })
    );
}

#[test]
fn a_settled_item_carries_the_key_of_its_dispatch() {
    let ItemPlan::Publish(out) = plan_item(link_item("l-1")) else { panic!("nothing to publish") };
    assert_eq!(out.key, "l-1");
    assert_eq!(
        settle_item(&out, &Delivery::Published),
        success("l-1", EventKind::OutgoingLink)
    );
    assert_eq!(
        settle_item(&out, &Delivery::NotPublished),
        ItemResult {
            event_id: "l-1".to_string(),
            outcome: Outcome::NotPublished { kind: EventKind::OutgoingLink },
        }
    );
    let result = settle_item(&out, &Delivery::NotEncoded);
    assert_eq!(
        result,
        ItemResult {
            event_id: "l-1".to_string(),
            outcome: Outcome::NotEncoded { kind: EventKind::OutgoingLink },
        }
    );
    assert_eq!(result.outcome.message(), Some("Serialization failed"));
    assert_eq!(result.outcome.kind(), Some(EventKind::OutgoingLink));
    assert_eq!(success("x", EventKind::Track).outcome.message(), None);
    assert_eq!(success("x", EventKind::Track).outcome.published(), Some(EventKind::Track));
    assert_eq!(result.outcome.published(), None);
}

#[test]
fn results_are_kept_in_the_order_in_which_they_come() {
    let first = ItemResult { event_id: "1".to_string(), outcome: Outcome::Unrecognized };
    let second = success("2", EventKind::Track);
    let third = success("3", EventKind::Track);
    let batch = BatchResponse::new().record(first.clone());
    assert_eq!(batch.processed(), 0);
    let batch = batch.record(second.clone());
    assert_eq!(batch.processed(), 1);
    let batch = batch.record(third.clone());
    assert_eq!(batch.processed(), 2);
    assert_eq!(batch.batched().track, 2);
    assert_eq!(*batch.results(), vec![first, second, third]);
}
