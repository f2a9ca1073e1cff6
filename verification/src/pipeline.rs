//! The path of one event from payload to answer.
//!
//! The library decides; the caller acts. A payload is read and validated here, and what
//! comes out is either the answer to the client or a `Dispatch`: the channel, the key
//! and the event to publish. The caller encodes the event, publishes it under that key,
//! and reports how that went as a `Delivery`, from which `respond` makes the answer.
//!
//! A failure on the way out is the service's own: the client is told which step failed
//! and nothing more. Why the step failed is for the caller's log.

use crate::identity::{
    assign_event_id, assignable, get_event_id, resolve_event_id, resolved_id, supplied_id,
};
use crate::json::Json;
use crate::models::{Event, EventKind};
use crate::shape::{discriminate, discriminate_as, discriminated, discriminated_as, ShapeError};
use crate::validate::{validate_event, violations_in, Violation};
use vstd::prelude::*;

verus! {

/// What the caller hands to the broker for one event.
#[derive(Clone, Debug, PartialEq, Eq)]
pub struct Dispatch {
    /// The channel to publish on.
    pub topic: &'static str,
    /// The identifier of the event: the key of the message, and the value by which
    /// the answer refers to the event.
    pub key: String,
    /// The kind of the event.
    pub kind: EventKind,
    /// The event, to be encoded as the body of the message.
    pub event: Event,
}

/// How the caller fared with a `Dispatch`.
#[derive(Clone, Copy, Debug, PartialEq, Eq, Structural)]
pub enum Delivery {
    /// The broker took the message.
    Published,
    /// The event could not be encoded.
    NotEncoded,
    /// The broker refused the message, or did not answer in time.
    NotPublished,
}

/// The answer to the client.
#[derive(Clone, Debug, PartialEq, Eq)]
pub enum Reply {
    /// The event was published.
    Success { kind: EventKind },
    /// The payload fits none of the kinds that the endpoint takes.
    Unrecognized,
    /// The event breaks the bounds listed in `violations`.
    Invalid { violations: Vec<Violation> },
    /// The event could not be encoded. No detail goes to the client.
    NotEncoded,
    /// The event could not be published. No detail goes to the client.
    NotPublished,
}

/// What follows the reading and validation of a payload.
#[derive(Clone, Debug, PartialEq, Eq)]
pub enum Step {
    /// Nothing is published; the client gets this answer.
    Answer(Reply),
    /// The event is to be published.
    Publish(Dispatch),
}

impl Reply {
    /// The HTTP status that goes with the answer.
    pub open spec fn status(self) -> u16 {
        match self {
            Reply::Success { .. } => 200,
            Reply::Unrecognized => 400,
            Reply::Invalid { .. } => 400,
            Reply::NotEncoded => 500,
            Reply::NotPublished => 500,
        }
    }

    /// The message that goes with an answer that reports a failure.
    pub open spec fn message_of(self) -> Option<&'static str> {
        match self {
            Reply::Success { .. } => None,
            Reply::Unrecognized => Some("Unrecognized event shape"),
            Reply::Invalid { .. } => Some("Validation failed"),
            Reply::NotEncoded => Some("Serialization failed"),
            Reply::NotPublished => Some("Failed to process event"),
        }
    }

    /// What the answer tells the client beyond status and message: the violations of
    /// an invalid event, and nothing for any other answer.
    pub open spec fn details_of(self) -> Option<Seq<Violation>> {
        match self {
            Reply::Invalid { violations } => Some(violations@),
            _ => None,
        }
    }

    /// The HTTP status that goes with the answer: 200 for success, 400 where the
    /// client is at fault, 500 otherwise.
    pub fn status_code(&self) -> (code: u16)
        ensures
            code == self.status(),
    {
        match self {
            Reply::Success { .. } => 200,
            Reply::Unrecognized => 400,
            Reply::Invalid { .. } => 400,
            Reply::NotEncoded => 500,
            Reply::NotPublished => 500,
        }
    }

    /// The message that goes with an answer that reports a failure; `None` for
    /// success. A failure to encode or to publish is reported by this message alone.
    pub fn message(&self) -> (text: Option<&'static str>)
        ensures
            text == self.message_of(),
    {
        match self {
            Reply::Success { .. } => None,
            Reply::Unrecognized => Some("Unrecognized event shape"),
            Reply::Invalid { .. } => Some("Validation failed"),
            Reply::NotEncoded => Some("Serialization failed"),
            Reply::NotPublished => Some("Failed to process event"),
        }
    }

    /// What the answer tells the client beyond status and message: the violations of
    /// an invalid event, and nothing for any other answer.
    pub fn details(&self) -> (found: Option<&Vec<Violation>>)
        ensures
            match found {
                Some(violations) => self.details_of() == Some(violations@),
                None => self.details_of() is None,
            },
    {
        match self {
            Reply::Invalid { violations } => Some(violations),
            _ => None,
        }
    }
}

/// What is handed to the broker for a valid `event` whose identifier is `key`.
pub open spec fn dispatch_of(event: Event, key: String) -> Dispatch {
    Dispatch { topic: event.kind_of().topic_of(), key, kind: event.kind_of(), event }
}

/// Whether `step` is what follows for `event`, given that its identifier is `key`: a
/// valid event is to be published, and an invalid one is answered with all of its
/// violations.
pub open spec fn planned(step: Step, event: Event, key: String) -> bool {
    if violations_in(event.entries()).len() == 0 {
        step == Step::Publish(dispatch_of(event, key))
    } else {
        step matches Step::Answer(Reply::Invalid { violations }) && violations@ == violations_in(
            event.entries(),
        )
    }
}

/// The key in a step that publishes.
pub open spec fn key_of(step: Step) -> String {
    step->Publish_0.key
}

/// Whether `step` is what follows for `event`, whatever fresh identifier was made: as
/// `planned` says, with a key that may be assigned to the event.
pub open spec fn processed(step: Step, event: Event) -> bool {
    &&& planned(step, event, key_of(step))
    &&& step is Publish ==> assignable(supplied_id(event), key_of(step))
}

/// Whether `step` is what follows a payload that was read as `read`.
pub open spec fn ingested(step: Step, read: Result<Event, ShapeError>) -> bool {
    match read {
        Ok(event) => processed(step, event),
        Err(_) => step == Step::Answer(Reply::Unrecognized),
    }
}

/// The answer after the caller has tried to publish an event of `kind`.
pub open spec fn reply_of(kind: EventKind, delivery: Delivery) -> Reply {
    match delivery {
        Delivery::Published => Reply::Success { kind },
        Delivery::NotEncoded => Reply::NotEncoded,
        Delivery::NotPublished => Reply::NotPublished,
    }
}

/// What is handed to the broker for a valid `event` whose identifier is `key`.
pub fn dispatch(event: Event, key: String) -> (out: Dispatch)
    ensures
        out == dispatch_of(event, key),
{
    let kind = event.kind();
    Dispatch { topic: kind.topic(), key, kind, event }
}

/// Validates `event` and, where it is valid, routes it under its own identifier or,
/// if it has none, under `fresh`.
pub fn process_event_with(event: Event, fresh: String) -> (step: Step)
    ensures
        planned(step, event, resolved_id(supplied_id(event), fresh)),
{
    match validate_event(&event) {
        Err(violations) => Step::Answer(Reply::Invalid { violations }),
        Ok(_) => {
            let supplied = get_event_id(&event);
            let key = resolve_event_id(supplied, fresh);
            Step::Publish(dispatch(event, key))
        },
    }
}

/// Validates `event` and, where it is valid, routes it under its own identifier or,
/// if it has none, under one made for the occasion.
pub fn process_event(event: Event) -> (step: Step)
    ensures
        processed(step, event),
{
    match validate_event(&event) {
        Err(violations) => Step::Answer(Reply::Invalid { violations }),
        Ok(_) => {
            let key = assign_event_id(&event);
            Step::Publish(dispatch(event, key))
        },
    }
}

/// The answer after the caller has tried to publish an event of `kind`.
pub fn respond(kind: EventKind, delivery: Delivery) -> (reply: Reply)
    ensures
        reply == reply_of(kind, delivery),
{
    match delivery {
        Delivery::Published => Reply::Success { kind },
        Delivery::NotEncoded => Reply::NotEncoded,
        Delivery::NotPublished => Reply::NotPublished,
    }
}

/// Goes on with what was read from a payload, or answers that nothing was.
fn proceed(read: Result<Event, ShapeError>) -> (step: Step)
    ensures
        ingested(step, read),
{
    match read {
        Ok(event) => process_event(event),
        Err(_) => Step::Answer(Reply::Unrecognized),
    }
}

/// Takes a payload of any of the five kinds.
pub fn ingest_single(raw: Json) -> (step: Step)
    ensures
        ingested(step, discriminated(raw)),
{
    proceed(discriminate(raw))
}

/// Takes a web-vitals payload.
pub fn ingest_vitals(raw: Json) -> (step: Step)
    ensures
        ingested(step, discriminated_as(EventKind::WebVitals, raw)),
{
    proceed(discriminate_as(EventKind::WebVitals, raw))
}

/// Takes an error payload.
pub fn ingest_errors(raw: Json) -> (step: Step)
    ensures
        ingested(step, discriminated_as(EventKind::Error, raw)),
{
    proceed(discriminate_as(EventKind::Error, raw))
}

/// Takes an outgoing-link payload.
pub fn ingest_outgoing(raw: Json) -> (step: Step)
    ensures
        ingested(step, discriminated_as(EventKind::OutgoingLink, raw)),
{
    proceed(discriminate_as(EventKind::OutgoingLink, raw))
}

/// Whether the payload `raw` is read as an event that is within its bounds.
pub open spec fn acceptable(raw: Json) -> bool {
    discriminated(raw) matches Ok(event) && violations_in(event.entries()).len() == 0
}

/// A payload that is read as an event, of whatever kind and at whatever endpoint, and
/// is within its bounds, is published as an event of that kind on the channel of that
/// kind; and once it is published the client is told of success, with that kind.
pub proof fn lemma_acceptable_payload_succeeds(read: Result<Event, ShapeError>, step: Step)
    requires
        read is Ok,
        violations_in(read->Ok_0.entries()).len() == 0,
        ingested(step, read),
    ensures
        step is Publish,
        step->Publish_0.event == read->Ok_0,
        step->Publish_0.kind == read->Ok_0.kind_of(),
        step->Publish_0.topic@ == read->Ok_0.kind_of().channel(),
        reply_of(step->Publish_0.kind, Delivery::Published) == (Reply::Success {
            kind: read->Ok_0.kind_of(),
        }),
        reply_of(step->Publish_0.kind, Delivery::Published).status() == 200,
{
}

/// At an endpoint that takes one kind only, what is published is of that kind.
pub proof fn lemma_endpoint_fixes_the_kind(kind: EventKind, raw: Json, step: Step)
    requires
        ingested(step, discriminated_as(kind, raw)),
        step is Publish,
    ensures
        step->Publish_0.kind == kind,
        step->Publish_0.topic@ == kind.channel(),
{
}

/// An event within its bounds is published on the channel of its kind, and once it is
/// published the client is told of success, with the kind of the event.
pub proof fn lemma_valid_event_succeeds(event: Event, step: Step, key: String)
    requires
        violations_in(event.entries()).len() == 0,
        planned(step, event, key),
    ensures
        step matches Step::Publish(out) && out.kind == event.kind_of() && out.topic@
            == event.kind_of().channel() && out.key == key && out.event == event && reply_of(
            out.kind,
            Delivery::Published,
        ) == (Reply::Success { kind: event.kind_of() }),
        reply_of(event.kind_of(), Delivery::Published).status() == 200,
{
}

/// An event that breaks a bound is not published: the client is told so, with status
/// 400 and all the violations.
pub proof fn lemma_invalid_event_is_refused(event: Event, step: Step, key: String)
    requires
        violations_in(event.entries()).len() > 0,
        planned(step, event, key),
    ensures
        step matches Step::Answer(Reply::Invalid { violations }) && violations@ == violations_in(
            event.entries(),
        ),
        step matches Step::Answer(reply) && reply.status() == 400,
{
}

/// A failure on the way out is answered with status 500 and a message that names the
/// step, and with no detail: whatever the event and however the step failed, the answer
/// is one fixed value. The two steps have different messages.
pub proof fn lemma_failed_delivery_is_answered_without_detail(
    kind: EventKind,
    delivery: Delivery,
)
    requires
        delivery != Delivery::Published,
    ensures
        reply_of(kind, delivery).status() == 500,
        reply_of(kind, delivery).details_of() is None,
        reply_of(kind, delivery).message_of() is Some,
        delivery == Delivery::NotEncoded ==> reply_of(kind, delivery) == Reply::NotEncoded,
        delivery == Delivery::NotPublished ==> reply_of(kind, delivery) == Reply::NotPublished,
        Reply::NotEncoded.message_of()->0@ != Reply::NotPublished.message_of()->0@,
{
    reveal_strlit("Serialization failed");
    reveal_strlit("Failed to process event");
    assert("Serialization failed"@.len() != "Failed to process event"@.len());
}

/// The key under which an event is published is its own identifier where it supplied
/// one that is not empty, and a fresh one otherwise.
pub proof fn lemma_key_is_the_identifier(event: Event, step: Step)
    requires
        processed(step, event),
        step is Publish,
    ensures
        supplied_id(event) is Some && supplied_id(event)->0@.len() > 0 ==> key_of(step)
            == supplied_id(event)->0,
        key_of(step)@.len() > 0,
{
}

} // verus!
