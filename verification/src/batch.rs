//! A batch of payloads: each item goes its own way, and the answer lists how every one
//! of them fared, in the order in which they came.
//!
//! The caller walks the batch. For each payload `plan_item` says whether there is
//! anything to publish; where there is, the caller publishes and `settle_item` turns
//! what happened into the item's result. `BatchResponse` takes the results one by one
//! and keeps count. Nothing that happens to one item changes what is done with another.

use crate::identity::{
    assignable, get_event_id, resolve_event_id, resolve_or_generate, resolved_id, supplied_id,
};
use crate::json::{read_text, text_at, Json};
use crate::models::EventKind;
use crate::pipeline::{acceptable, dispatch, dispatch_of, Delivery, Dispatch};
use crate::shape::{discriminate, discriminated};
use crate::validate::{validate_event, violations_in, Violation};
use vstd::prelude::*;

verus! {

/// How one item of a batch fared.
#[derive(Clone, Debug, PartialEq, Eq)]
pub enum Outcome {
    /// The event was published.
    Success { kind: EventKind },
    /// The payload fits none of the five kinds.
    Unrecognized,
    /// The event breaks the bounds listed in `violations`.
    Invalid { kind: EventKind, violations: Vec<Violation> },
    /// The event could not be encoded.
    NotEncoded { kind: EventKind },
    /// The event could not be published.
    NotPublished { kind: EventKind },
}

/// The entry of one item in the answer to a batch.
#[derive(Clone, Debug, PartialEq, Eq)]
pub struct ItemResult {
    /// The identifier of the item: its own where it has one, and a fresh one
    /// otherwise, also where the item failed.
    pub event_id: String,
    /// How the item fared.
    pub outcome: Outcome,
}

/// What follows the reading and validation of one item.
#[derive(Clone, Debug, PartialEq, Eq)]
pub enum ItemPlan {
    /// Nothing is published; this is the item's result.
    Done(ItemResult),
    /// The event is to be published.
    Publish(Dispatch),
}

/// How many events of each kind were published.
#[derive(Clone, Copy, Debug, PartialEq, Eq, Structural)]
pub struct Tally {
    pub track: u64,
    pub error: u64,
    pub web_vitals: u64,
    pub custom: u64,
    pub outgoing_link: u64,
}

/// The answer to a batch: the results of its items in the order of the items, and the
/// counts of what was published.
#[derive(Debug, PartialEq, Eq)]
pub struct BatchResponse {
    results: Vec<ItemResult>,
    processed: u64,
    batched: Tally,
}

impl Outcome {
    /// The message that goes with an outcome that reports a failure.
    pub open spec fn message_of(self) -> Option<&'static str> {
        match self {
            Outcome::Success { .. } => None,
            Outcome::Unrecognized => Some("Unrecognized event shape"),
            Outcome::Invalid { .. } => Some("Validation failed"),
            Outcome::NotEncoded { .. } => Some("Serialization failed"),
            Outcome::NotPublished { .. } => Some("Failed to send to Kafka"),
        }
    }

    /// The kind of the event that was published, if one was.
    pub open spec fn published_kind(self) -> Option<EventKind> {
        match self {
            Outcome::Success { kind } => Some(kind),
            _ => None,
        }
    }

    /// The kind of the event, where the payload was read as one.
    pub open spec fn kind_of(self) -> Option<EventKind> {
        match self {
            Outcome::Success { kind } => Some(kind),
            Outcome::Unrecognized => None,
            Outcome::Invalid { kind, .. } => Some(kind),
            Outcome::NotEncoded { kind } => Some(kind),
            Outcome::NotPublished { kind } => Some(kind),
        }
    }

    /// The kind of the event that was published, if one was.
    pub fn published(&self) -> (kind: Option<EventKind>)
        ensures
            kind == self.published_kind(),
    {
        match self {
            Outcome::Success { kind } => Some(*kind),
            _ => None,
        }
    }

    /// The message that goes with an outcome that reports a failure; `None` for
    /// success.
    pub fn message(&self) -> (text: Option<&'static str>)
        ensures
            text == self.message_of(),
    {
        match self {
            Outcome::Success { .. } => None,
            Outcome::Unrecognized => Some("Unrecognized event shape"),
            Outcome::Invalid { .. } => Some("Validation failed"),
            Outcome::NotEncoded { .. } => Some("Serialization failed"),
            Outcome::NotPublished { .. } => Some("Failed to send to Kafka"),
        }
    }

    /// The kind of the event, where the payload was read as one.
    pub fn kind(&self) -> (kind: Option<EventKind>)
        ensures
            kind == self.kind_of(),
    {
        match self {
            Outcome::Success { kind } => Some(*kind),
            Outcome::Unrecognized => None,
            Outcome::Invalid { kind, .. } => Some(*kind),
            Outcome::NotEncoded { kind } => Some(*kind),
            Outcome::NotPublished { kind } => Some(*kind),
        }
    }
}

/// The identifier that a payload offers, whatever its shape: its member `eventId`,
/// where that is a string.
pub open spec fn offered_id(raw: Json) -> Option<String> {
    match raw {
        Json::Object(members) => text_at(members@, "eventId"@),
        _ => None,
    }
}

/// The identifier of an item, where `fresh` is at hand: that of the event, where the
/// payload was read as one, and otherwise the one that the payload offers; `fresh`
/// where that is missing or empty.
pub open spec fn item_id(raw: Json, fresh: String) -> String {
    match discriminated(raw) {
        Ok(event) => resolved_id(supplied_id(event), fresh),
        Err(_) => resolved_id(offered_id(raw), fresh),
    }
}

/// Whether `plan` is what follows for the item `raw`, where `fresh` is at hand.
pub open spec fn item_planned(plan: ItemPlan, raw: Json, fresh: String) -> bool {
    match discriminated(raw) {
        Err(_) => plan == ItemPlan::Done(
            ItemResult { event_id: item_id(raw, fresh), outcome: Outcome::Unrecognized },
        ),
        Ok(event) => if violations_in(event.entries()).len() == 0 {
            plan == ItemPlan::Publish(dispatch_of(event, item_id(raw, fresh)))
        } else {
            &&& plan matches ItemPlan::Done(
                ItemResult { event_id, outcome: Outcome::Invalid { kind, violations } },
            )
            &&& event_id == item_id(raw, fresh)
            &&& kind == event.kind_of()
            &&& violations@ == violations_in(event.entries())
        },
    }
}

/// The result of an item that the caller tried to publish.
pub open spec fn settled(out: Dispatch, delivery: Delivery) -> ItemResult {
    ItemResult {
        event_id: out.key,
        outcome: match delivery {
            Delivery::Published => Outcome::Success { kind: out.kind },
            Delivery::NotEncoded => Outcome::NotEncoded { kind: out.kind },
            Delivery::NotPublished => Outcome::NotPublished { kind: out.kind },
        },
    }
}

/// Whether `result` is the result of the item `raw`, where `fresh` is at hand and
/// `delivery` is how publishing went, if it came to that.
pub open spec fn item_result_of(
    result: ItemResult,
    raw: Json,
    fresh: String,
    delivery: Delivery,
) -> bool {
    exists|plan: ItemPlan| #[trigger]
        item_planned(plan, raw, fresh) && match plan {
            ItemPlan::Done(done) => result == done,
            ItemPlan::Publish(out) => result == settled(out, delivery),
        }
}

/// The identifier that a payload offers, whatever its shape.
fn offered(raw: &Json) -> (id: Option<String>)
    ensures
        id == offered_id(*raw),
{
    match raw {
        Json::Object(members) => read_text(members, "eventId"),
        _ => None,
    }
}

/// Reads and validates one item of a batch, with `fresh` as its identifier where it
/// has none of its own.
pub fn plan_item_with(raw: Json, fresh: String) -> (plan: ItemPlan)
    ensures
        item_planned(plan, raw, fresh),
{
    let own = offered(&raw);
    match discriminate(raw) {
        Err(_) => ItemPlan::Done(
            ItemResult { event_id: resolve_event_id(own, fresh), outcome: Outcome::Unrecognized },
        ),
        Ok(event) => {
            let key = resolve_event_id(get_event_id(&event), fresh);
            match validate_event(&event) {
                Err(violations) => ItemPlan::Done(
                    ItemResult {
                        event_id: key,
                        outcome: Outcome::Invalid { kind: event.kind(), violations },
                    },
                ),
                Ok(_) => ItemPlan::Publish(dispatch(event, key)),
            }
        },
    }
}

/// The identifier in a plan.
pub open spec fn plan_id(plan: ItemPlan) -> String {
    match plan {
        ItemPlan::Done(done) => done.event_id,
        ItemPlan::Publish(out) => out.key,
    }
}

/// The identifier that the item `raw` has of its own, whatever its shape.
pub open spec fn item_own_id(raw: Json) -> Option<String> {
    match discriminated(raw) {
        Ok(event) => supplied_id(event),
        Err(_) => offered_id(raw),
    }
}

/// Reads and validates one item of a batch. An item that has no identifier of its own
/// gets one made for the occasion, whether it is published or not.
pub fn plan_item(raw: Json) -> (plan: ItemPlan)
    ensures
        item_planned(plan, raw, plan_id(plan)),
        assignable(item_own_id(raw), plan_id(plan)),
{
    let own = offered(&raw);
    match discriminate(raw) {
        Err(_) => ItemPlan::Done(
            ItemResult { event_id: resolve_or_generate(own), outcome: Outcome::Unrecognized },
        ),
        Ok(event) => {
            let key = resolve_or_generate(get_event_id(&event));
            match validate_event(&event) {
                Err(violations) => ItemPlan::Done(
                    ItemResult {
                        event_id: key,
                        outcome: Outcome::Invalid { kind: event.kind(), violations },
                    },
                ),
                Ok(_) => ItemPlan::Publish(dispatch(event, key)),
            }
        },
    }
}

/// The result of an item that the caller tried to publish: it carries the key under
/// which the event was to be published.
pub fn settle_item(out: &Dispatch, delivery: &Delivery) -> (result: ItemResult)
    ensures
        result == settled(*out, *delivery),
{
    ItemResult {
        event_id: out.key.clone(),
        outcome: match delivery {
            Delivery::Published => Outcome::Success { kind: out.kind },
            Delivery::NotEncoded => Outcome::NotEncoded { kind: out.kind },
            Delivery::NotPublished => Outcome::NotPublished { kind: out.kind },
        },
    }
}

/// Whether `result` reports an event of `kind` that was published.
pub open spec fn published_as(result: ItemResult, kind: EventKind) -> bool {
    result.outcome == (Outcome::Success { kind })
}

/// The number of results that report a published event of `kind`.
pub open spec fn published_count(results: Seq<ItemResult>, kind: EventKind) -> nat
    decreases results.len(),
{
    if results.len() == 0 {
        0
    } else {
        published_count(results.drop_last(), kind) + if published_as(results.last(), kind) {
            1nat
        } else {
            0nat
        }
    }
}

/// The number of results that report a published event.
pub open spec fn successes(results: Seq<ItemResult>) -> nat {
    published_count(results, EventKind::Track) + published_count(results, EventKind::Error)
        + published_count(results, EventKind::WebVitals) + published_count(
        results,
        EventKind::Custom,
    ) + published_count(results, EventKind::OutgoingLink)
}

/// No more events of a kind were published than there are results.
pub proof fn lemma_published_count_bound(results: Seq<ItemResult>, kind: EventKind)
    ensures
        published_count(results, kind) <= results.len(),
    decreases results.len(),
{
    if results.len() > 0 {
        lemma_published_count_bound(results.drop_last(), kind);
    }
}

/// Each result counts for at most one kind.
pub proof fn lemma_successes_bound(results: Seq<ItemResult>)
    ensures
        successes(results) <= results.len(),
    decreases results.len(),
{
    if results.len() > 0 {
        lemma_successes_bound(results.drop_last());
    }
}

impl BatchResponse {
    /// The counts are those of the results.
    #[verifier::type_invariant]
    closed spec fn counted(self) -> bool {
        &&& self.processed == successes(self.results@)
        &&& self.batched.track == published_count(self.results@, EventKind::Track)
        &&& self.batched.error == published_count(self.results@, EventKind::Error)
        &&& self.batched.web_vitals == published_count(self.results@, EventKind::WebVitals)
        &&& self.batched.custom == published_count(self.results@, EventKind::Custom)
        &&& self.batched.outgoing_link == published_count(
            self.results@,
            EventKind::OutgoingLink,
        )
    }

    /// The results of the items so far, in the order of the items.
    pub closed spec fn outcomes(self) -> Seq<ItemResult> {
        self.results@
    }

    /// The answer to a batch of which no item has been seen yet.
    pub fn new() -> (batch: Self)
        ensures
            batch.outcomes() == Seq::<ItemResult>::empty(),
    {
        BatchResponse {
            results: Vec::new(),
            processed: 0,
            batched: Tally { track: 0, error: 0, web_vitals: 0, custom: 0, outgoing_link: 0 },
        }
    }

    /// The answer with the result of the next item added. The results before it stay
    /// as they are.
    pub fn record(self, result: ItemResult) -> (next: Self)
        ensures
            next.outcomes() == self.outcomes().push(result),
    {
        proof {
            use_type_invariant(&self);
        }
        let ghost before = self.results@;
        let mut results = self.results;
        let mut processed = self.processed;
        let mut batched = self.batched;
        let published = result.outcome.published();
        results.push(result);
        proof {
            assert(results@.drop_last() =~= before);
            assert(results.len() <= usize::MAX);
            lemma_successes_bound(before);
            lemma_published_count_bound(before, EventKind::Track);
            lemma_published_count_bound(before, EventKind::Error);
            lemma_published_count_bound(before, EventKind::WebVitals);
            lemma_published_count_bound(before, EventKind::Custom);
            lemma_published_count_bound(before, EventKind::OutgoingLink);
        }
        match published {
            Some(kind) => {
                processed = processed + 1;
                match kind {
                    EventKind::Track => {
                        batched.track = batched.track + 1;
                    },
                    EventKind::Error => {
                        batched.error = batched.error + 1;
                    },
                    EventKind::WebVitals => {
                        batched.web_vitals = batched.web_vitals + 1;
                    },
                    EventKind::Custom => {
                        batched.custom = batched.custom + 1;
                    },
                    EventKind::OutgoingLink => {
                        batched.outgoing_link = batched.outgoing_link + 1;
                    },
                }
            },
            None => {},
        }
        BatchResponse { results, processed, batched }
    }

    /// The number of events that were published.
    pub fn processed(&self) -> (count: u64)
        ensures
            count == successes(self.outcomes()),
    {
        proof {
            use_type_invariant(self);
        }
        self.processed
    }

    /// The number of events of each kind that were published.
    pub fn batched(&self) -> (tally: Tally)
        ensures
            tally.track == published_count(self.outcomes(), EventKind::Track),
            tally.error == published_count(self.outcomes(), EventKind::Error),
            tally.web_vitals == published_count(self.outcomes(), EventKind::WebVitals),
            tally.custom == published_count(self.outcomes(), EventKind::Custom),
            tally.outgoing_link == published_count(self.outcomes(), EventKind::OutgoingLink),
    {
        proof {
            use_type_invariant(self);
        }
        self.batched
    }

    /// The results of the items, in the order of the items.
    pub fn results(&self) -> (results: &Vec<ItemResult>)
        ensures
            results@ == self.outcomes(),
    {
        &self.results
    }
}

/// Whether `result` reports a published event.
pub open spec fn succeeded(result: ItemResult) -> bool {
    result.outcome is Success
}

/// Where every result reports a published event, as many were published as there are
/// results.
pub proof fn lemma_all_succeeded(results: Seq<ItemResult>)
    requires
        forall|i: int| 0 <= i < results.len() ==> succeeded(#[trigger] results[i]),
    ensures
        successes(results) == results.len(),
    decreases results.len(),
{
    if results.len() > 0 {
        lemma_all_succeeded(results.drop_last());
    }
}

/// Where one result reports a failure and every other a published event, one event
/// fewer was published than there are results.
pub proof fn lemma_one_failure(results: Seq<ItemResult>, k: int)
    requires
        0 <= k < results.len(),
        !succeeded(results[k]),
        forall|i: int| 0 <= i < results.len() && i != k ==> succeeded(#[trigger] results[i]),
    ensures
        successes(results) == results.len() - 1,
    decreases results.len(),
{
    if k == results.len() - 1 {
        lemma_all_succeeded(results.drop_last());
    } else {
        lemma_one_failure(results.drop_last(), k);
    }
}

/// One malformed item does not touch the others. In a batch where the item at `k` is
/// not acceptable, and every other item is acceptable and was published: the item at
/// `k` has a result that reports a failure and carries the item's identifier; every
/// other item has, at its own place, a result that reports success with the kind and
/// the identifier of its event; and one event fewer was published than the batch has
/// items.
pub proof fn lemma_batch_containment(
    raws: Seq<Json>,
    fresh: Seq<String>,
    deliveries: Seq<Delivery>,
    results: Seq<ItemResult>,
    k: int,
)
    requires
        fresh.len() == raws.len(),
        deliveries.len() == raws.len(),
        results.len() == raws.len(),
        forall|i: int|
            0 <= i < raws.len() ==> item_result_of(
                #[trigger] results[i],
                raws[i],
                fresh[i],
                deliveries[i],
            ),
        0 <= k < raws.len(),
        !acceptable(raws[k]),
        forall|i: int|
            0 <= i < raws.len() && i != k ==> acceptable(#[trigger] raws[i]) && deliveries[i]
                == Delivery::Published,
    ensures
        successes(results) == raws.len() - 1,
        !succeeded(results[k]),
        results[k].event_id == item_id(raws[k], fresh[k]),
        forall|i: int|
            0 <= i < raws.len() && i != k ==> (#[trigger] results[i]) == (ItemResult {
                event_id: item_id(raws[i], fresh[i]),
                outcome: Outcome::Success { kind: discriminated(raws[i])->Ok_0.kind_of() },
            }),
{
    assert forall|i: int| 0 <= i < results.len() && i != k implies succeeded(
        #[trigger] results[i],
    ) by {
        assert(acceptable(raws[i]));
    }
    lemma_one_failure(results, k);
}

} // verus!
