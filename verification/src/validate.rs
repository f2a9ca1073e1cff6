//! Validation of an event against the table of length bounds.
//!
//! Every bounded field of the event is measured; each one that is too long is reported,
//! in the order in which the payload declares its fields.

use crate::limits::Field;
use crate::models::{
    BaseEventPayload, ContextBasePayload, CustomEventPayload, ErrorEventPayload, Event,
    MinimalBasePayload, OutgoingLinkPayload, TrackEventPayload, WebVitalsEventPayload,
};
use validator::ValidateLength;
use vstd::prelude::*;
use vstd::string::StrSliceExecFns;

verus! {

/// One field that is longer than the table allows.
#[derive(Clone, Copy, Debug, PartialEq, Eq, Structural)]
pub struct Violation {
    /// The field that is too long.
    pub field: Field,
    /// The most characters that the field may hold.
    pub max: u64,
    /// The number of characters that it holds.
    pub actual: u64,
}

/// A bounded field together with the text found in it.
pub type Entry = (Field, Seq<char>);

/// Whether `text` is short enough for `field`.
pub open spec fn within_bound(field: Field, text: Seq<char>) -> bool {
    text.len() <= field.bound()
}

/// What is reported of a field that is too long.
pub open spec fn violation_of(field: Field, text: Seq<char>) -> Violation {
    Violation { field, max: field.bound() as u64, actual: text.len() as u64 }
}

/// The violations among `entries`, in the order of the entries.
pub open spec fn violations_in(entries: Seq<Entry>) -> Seq<Violation>
    decreases entries.len(),
{
    if entries.len() == 0 {
        Seq::empty()
    } else {
        let rest = violations_in(entries.drop_last());
        let (field, text) = entries.last();
        if within_bound(field, text) {
            rest
        } else {
            rest.push(violation_of(field, text))
        }
    }
}

/// `validator::ValidateLength::validate_length` on a string, with an upper bound and
/// neither a lower bound nor an exact length. The crate counts the characters of the
/// string and accepts it exactly when the count does not exceed the bound.
#[verifier::external_body]
fn length_at_most(text: &str, max: u64) -> (ok: bool)
    ensures
        ok == (text@.len() <= max),
{
    text.validate_length(None, Some(max), None)
}

/// The entry of a field that may be absent.
pub open spec fn present(field: Field, text: Option<String>) -> Seq<Entry> {
    match text {
        Some(t) => seq![(field, t@)],
        None => Seq::empty(),
    }
}

impl BaseEventPayload {
    /// The bounded fields of the payload, in declared order.
    pub open spec fn entries(self) -> Seq<Entry> {
        present(Field::EventId, self.eventId) + seq![
            (Field::Name, self.name@),
            (Field::AnonymousId, self.anonymousId@),
            (Field::SessionId, self.sessionId@),
            (Field::Path, self.path@),
            (Field::Title, self.title@),
            (Field::Referrer, self.referrer@),
            (Field::Timezone, self.timezone@),
            (Field::Language, self.language@),
        ] + self.campaign_entries()
    }

    /// The bounded campaign parameters of the payload, in declared order.
    pub open spec fn campaign_entries(self) -> Seq<Entry> {
        present(Field::UtmSource, self.utm_source) + present(Field::UtmMedium, self.utm_medium)
            + present(Field::UtmCampaign, self.utm_campaign) + present(
            Field::UtmTerm,
            self.utm_term,
        ) + present(Field::UtmContent, self.utm_content)
    }
}

impl TrackEventPayload {
    /// The bounded fields of the payload, in declared order.
    pub open spec fn entries(self) -> Seq<Entry> {
        self.base.entries() + present(Field::Href, self.href) + present(Field::Text, self.text)
    }
}

impl MinimalBasePayload {
    /// The bounded fields of the payload, in declared order.
    pub open spec fn entries(self) -> Seq<Entry> {
        present(Field::EventId, self.eventId) + seq![
            (Field::AnonymousId, self.anonymousId@),
            (Field::SessionId, self.sessionId@),
            (Field::Path, self.path@),
        ]
    }
}

impl ContextBasePayload {
    /// The bounded fields of the payload, in declared order.
    pub open spec fn entries(self) -> Seq<Entry> {
        self.base.entries() + present(Field::Language, self.language) + present(
            Field::Timezone,
            self.timezone,
        )
    }
}

impl ErrorEventPayload {
    /// The bounded fields of the payload, in declared order.
    pub open spec fn entries(self) -> Seq<Entry> {
        self.base.entries() + seq![(Field::Message, self.message@)] + present(
            Field::Filename,
            self.filename,
        ) + present(Field::Stack, self.stack) + present(Field::ErrorType, self.errorType)
    }
}

impl WebVitalsEventPayload {
    /// The bounded fields of the payload, in declared order.
    pub open spec fn entries(self) -> Seq<Entry> {
        self.base.entries()
    }
}

impl CustomEventPayload {
    /// The bounded fields of the payload, in declared order.
    pub open spec fn entries(self) -> Seq<Entry> {
        present(Field::EventId, self.eventId) + seq![(Field::Name, self.name@)] + present(
            Field::AnonymousId,
            self.anonymousId,
        ) + present(Field::SessionId, self.sessionId)
    }
}

impl OutgoingLinkPayload {
    /// The bounded fields of the payload, in declared order.
    pub open spec fn entries(self) -> Seq<Entry> {
        seq![(Field::EventId, self.eventId@)] + present(Field::AnonymousId, self.anonymousId)
            + present(Field::SessionId, self.sessionId) + seq![(Field::Href, self.href@)]
            + present(Field::Text, self.text)
    }
}

impl Event {
    /// The bounded fields of the event, in declared order.
    pub open spec fn entries(self) -> Seq<Entry> {
        match self {
            Event::Track(p) => p.entries(),
            Event::Error(p) => p.entries(),
            Event::WebVitals(p) => p.entries(),
            Event::Custom(p) => p.entries(),
            Event::OutgoingLink(p) => p.entries(),
        }
    }
}

/// Whether `outcome` is the outcome of validating `entries`: acceptance where nothing is
/// too long, and otherwise every violation, in order.
pub open spec fn reports(outcome: Result<(), Vec<Violation>>, entries: Seq<Entry>) -> bool {
    match outcome {
        Ok(_) => violations_in(entries).len() == 0,
        Err(found) => found@.len() > 0 && found@ == violations_in(entries),
    }
}

/// Measures one more field.
fn measure(
    found: &mut Vec<Violation>,
    Ghost(seen): Ghost<Seq<Entry>>,
    field: Field,
    text: &str,
) -> (now: Ghost<Seq<Entry>>)
    requires
        old(found)@ == violations_in(seen),
    ensures
        now@ == seen.push((field, text@)),
        final(found)@ == violations_in(now@),
{
    let max = field.max_length();
    let ghost now = seen.push((field, text@));
    proof {
        assert(now.drop_last() =~= seen);
    }
    if !length_at_most(text, max) {
        let count: usize = text.unicode_len();
        found.push(Violation { field, max, actual: count as u64 });
    }
    Ghost(now)
}

/// Measures one more field, if it is there.
fn measure_opt(
    found: &mut Vec<Violation>,
    Ghost(seen): Ghost<Seq<Entry>>,
    field: Field,
    text: &Option<String>,
) -> (now: Ghost<Seq<Entry>>)
    requires
        old(found)@ == violations_in(seen),
    ensures
        now@ == seen + present(field, *text),
        final(found)@ == violations_in(now@),
{
    match text {
        Some(t) => {
            let now = measure(found, Ghost(seen), field, t.as_str());
            proof {
                assert(now@ =~= seen + present(field, *text));
            }
            now
        },
        None => Ghost(seen),
    }
}

/// Acceptance where nothing was found, and what was found otherwise.
fn conclude(found: Vec<Violation>) -> (outcome: Result<(), Vec<Violation>>)
    ensures
        match outcome {
            Ok(_) => found@.len() == 0,
            Err(same) => same == found && found@.len() > 0,
        },
{
    if found.len() == 0 {
        Ok(())
    } else {
        Err(found)
    }
}

impl BaseEventPayload {
    /// Measures every bounded field of the payload, in declared order.
    fn measure_all(
        &self,
        found: &mut Vec<Violation>,
        Ghost(seen): Ghost<Seq<Entry>>,
    ) -> (now: Ghost<Seq<Entry>>)
        requires
            old(found)@ == violations_in(seen),
        ensures
            now@ == seen + self.entries(),
            final(found)@ == violations_in(now@),
    {
        let s = measure_opt(found, Ghost(seen), Field::EventId, &self.eventId);
        let s = measure(found, s, Field::Name, self.name.as_str());
        let s = measure(found, s, Field::AnonymousId, self.anonymousId.as_str());
        let s = measure(found, s, Field::SessionId, self.sessionId.as_str());
        let s = measure(found, s, Field::Path, self.path.as_str());
        let s = measure(found, s, Field::Title, self.title.as_str());
        let s = measure(found, s, Field::Referrer, self.referrer.as_str());
        let s = measure(found, s, Field::Timezone, self.timezone.as_str());
        let s = measure(found, s, Field::Language, self.language.as_str());
        let s = self.measure_campaign(found, s);
        proof {
            assert(s@ =~= seen + self.entries());
        }
        s
    }

    /// Measures the campaign parameters of the payload, in declared order.
    fn measure_campaign(
        &self,
        found: &mut Vec<Violation>,
        Ghost(seen): Ghost<Seq<Entry>>,
    ) -> (now: Ghost<Seq<Entry>>)
        requires
            old(found)@ == violations_in(seen),
        ensures
            now@ == seen + self.campaign_entries(),
            final(found)@ == violations_in(now@),
    {
        let s = measure_opt(found, Ghost(seen), Field::UtmSource, &self.utm_source);
        let s = measure_opt(found, s, Field::UtmMedium, &self.utm_medium);
        let s = measure_opt(found, s, Field::UtmCampaign, &self.utm_campaign);
        let s = measure_opt(found, s, Field::UtmTerm, &self.utm_term);
        let s = measure_opt(found, s, Field::UtmContent, &self.utm_content);
        proof {
            assert(s@ =~= seen + self.campaign_entries());
        }
        s
    }

    /// Holds every bounded field of the payload against the table.
    pub fn validate(&self) -> (outcome: Result<(), Vec<Violation>>)
        ensures
            reports(outcome, self.entries()),
    {
        let mut found: Vec<Violation> = Vec::new();
        let s = self.measure_all(&mut found, Ghost(Seq::empty()));
        proof {
            assert(s@ =~= self.entries());
        }
        conclude(found)
    }
}

impl TrackEventPayload {
    /// Holds every bounded field of the payload against the table.
    pub fn validate(&self) -> (outcome: Result<(), Vec<Violation>>)
        ensures
            reports(outcome, self.entries()),
    {
        let mut found: Vec<Violation> = Vec::new();
        let s = self.base.measure_all(&mut found, Ghost(Seq::empty()));
        let s = measure_opt(&mut found, s, Field::Href, &self.href);
        let s = measure_opt(&mut found, s, Field::Text, &self.text);
        proof {
            assert(s@ =~= self.entries());
        }
        conclude(found)
    }
}

impl MinimalBasePayload {
    /// Measures every bounded field of the payload, in declared order.
    fn measure_all(
        &self,
        found: &mut Vec<Violation>,
        Ghost(seen): Ghost<Seq<Entry>>,
    ) -> (now: Ghost<Seq<Entry>>)
        requires
            old(found)@ == violations_in(seen),
        ensures
            now@ == seen + self.entries(),
            final(found)@ == violations_in(now@),
    {
        let s = measure_opt(found, Ghost(seen), Field::EventId, &self.eventId);
        let s = measure(found, s, Field::AnonymousId, self.anonymousId.as_str());
        let s = measure(found, s, Field::SessionId, self.sessionId.as_str());
        let s = measure(found, s, Field::Path, self.path.as_str());
        proof {
            assert(s@ =~= seen + self.entries());
        }
        s
    }

    /// Holds every bounded field of the payload against the table.
    pub fn validate(&self) -> (outcome: Result<(), Vec<Violation>>)
        ensures
            reports(outcome, self.entries()),
    {
        let mut found: Vec<Violation> = Vec::new();
        let s = self.measure_all(&mut found, Ghost(Seq::empty()));
        proof {
            assert(s@ =~= self.entries());
        }
        conclude(found)
    }
}

impl ContextBasePayload {
    /// Measures every bounded field of the payload, in declared order.
    fn measure_all(
        &self,
        found: &mut Vec<Violation>,
        Ghost(seen): Ghost<Seq<Entry>>,
    ) -> (now: Ghost<Seq<Entry>>)
        requires
            old(found)@ == violations_in(seen),
        ensures
            now@ == seen + self.entries(),
            final(found)@ == violations_in(now@),
    {
        let s = self.base.measure_all(found, Ghost(seen));
        let s = measure_opt(found, s, Field::Language, &self.language);
        let s = measure_opt(found, s, Field::Timezone, &self.timezone);
        proof {
            assert(s@ =~= seen + self.entries());
        }
        s
    }

    /// Holds every bounded field of the payload against the table.
    pub fn validate(&self) -> (outcome: Result<(), Vec<Violation>>)
        ensures
            reports(outcome, self.entries()),
    {
        let mut found: Vec<Violation> = Vec::new();
        let s = self.measure_all(&mut found, Ghost(Seq::empty()));
        proof {
            assert(s@ =~= self.entries());
        }
        conclude(found)
    }
}

impl ErrorEventPayload {
    /// Holds every bounded field of the payload against the table.
    pub fn validate(&self) -> (outcome: Result<(), Vec<Violation>>)
        ensures
            reports(outcome, self.entries()),
    {
        let mut found: Vec<Violation> = Vec::new();
        let s = self.base.measure_all(&mut found, Ghost(Seq::empty()));
        let s = measure(&mut found, s, Field::Message, self.message.as_str());
        let s = measure_opt(&mut found, s, Field::Filename, &self.filename);
        let s = measure_opt(&mut found, s, Field::Stack, &self.stack);
        let s = measure_opt(&mut found, s, Field::ErrorType, &self.errorType);
        proof {
            assert(s@ =~= self.entries());
        }
        conclude(found)
    }
}

impl WebVitalsEventPayload {
    /// Holds every bounded field of the payload against the table.
    pub fn validate(&self) -> (outcome: Result<(), Vec<Violation>>)
        ensures
            reports(outcome, self.entries()),
    {
        let mut found: Vec<Violation> = Vec::new();
        let s = self.base.measure_all(&mut found, Ghost(Seq::empty()));
        proof {
            assert(s@ =~= self.entries());
        }
        conclude(found)
    }
}

impl CustomEventPayload {
    /// Holds every bounded field of the payload against the table.
    pub fn validate(&self) -> (outcome: Result<(), Vec<Violation>>)
        ensures
            reports(outcome, self.entries()),
    {
        let mut found: Vec<Violation> = Vec::new();
        let s = measure_opt(&mut found, Ghost(Seq::empty()), Field::EventId, &self.eventId);
        let s = measure(&mut found, s, Field::Name, self.name.as_str());
        let s = measure_opt(&mut found, s, Field::AnonymousId, &self.anonymousId);
        let s = measure_opt(&mut found, s, Field::SessionId, &self.sessionId);
        proof {
            assert(s@ =~= self.entries());
        }
        conclude(found)
    }
}

impl OutgoingLinkPayload {
    /// Holds every bounded field of the payload against the table.
    pub fn validate(&self) -> (outcome: Result<(), Vec<Violation>>)
        ensures
            reports(outcome, self.entries()),
    {
        let mut found: Vec<Violation> = Vec::new();
        let s = measure(&mut found, Ghost(Seq::empty()), Field::EventId, self.eventId.as_str());
        let s = measure_opt(&mut found, s, Field::AnonymousId, &self.anonymousId);
        let s = measure_opt(&mut found, s, Field::SessionId, &self.sessionId);
        let s = measure(&mut found, s, Field::Href, self.href.as_str());
        let s = measure_opt(&mut found, s, Field::Text, &self.text);
        proof {
            assert(s@ =~= self.entries());
        }
        conclude(found)
    }
}

/// Validates an event of any kind: `Ok` where every bounded field is within its bound,
/// and otherwise all the violations, none left out.
pub fn validate_event(event: &Event) -> (outcome: Result<(), Vec<Violation>>)
    ensures
        reports(outcome, event.entries()),
{
    match event {
        Event::Track(e) => e.validate(),
        Event::Error(e) => e.validate(),
        Event::WebVitals(e) => e.validate(),
        Event::Custom(e) => e.validate(),
        Event::OutgoingLink(e) => e.validate(),
    }
}

/// Whether `found` holds a report on `field`.
pub open spec fn names(found: Seq<Violation>, field: Field) -> bool {
    exists|j: int| 0 <= j < found.len() && (#[trigger] found[j]).field == field
}

/// Whether the entry at `i` is too long.
pub open spec fn offends(entries: Seq<Entry>, i: int) -> bool {
    0 <= i < entries.len() && !within_bound(entries[i].0, entries[i].1)
}

/// Whether `violation` is what is reported of some entry that is too long.
pub open spec fn reported_of(entries: Seq<Entry>, violation: Violation) -> bool {
    exists|i: int| #[trigger]
        offends(entries, i) && violation == violation_of(entries[i].0, entries[i].1)
}

/// The report on `entries` holds one violation for each entry that is too long, with
/// the entry's field, bound and length, and holds nothing else.
pub proof fn lemma_violations_are_the_offenders(entries: Seq<Entry>)
    ensures
        forall|i: int| #[trigger]
            offends(entries, i) ==> violations_in(entries).contains(
                violation_of(entries[i].0, entries[i].1),
            ),
        forall|j: int|
            0 <= j < violations_in(entries).len() ==> reported_of(
                entries,
                #[trigger] violations_in(entries)[j],
            ),
        violations_in(entries).len() <= entries.len(),
    decreases entries.len(),
{
    if entries.len() > 0 {
        let front = entries.drop_last();
        let last = entries.len() - 1;
        let (field, text) = entries.last();
        let rest = violations_in(front);
        let all = violations_in(entries);
        lemma_violations_are_the_offenders(front);
        assert forall|i: int| #[trigger] offends(entries, i) implies all.contains(
            violation_of(entries[i].0, entries[i].1),
        ) by {
            if i < last {
                assert(offends(front, i));
                let v = violation_of(front[i].0, front[i].1);
                let at = choose|at: int| 0 <= at < rest.len() && rest[at] == v;
                assert(all[at] == v);
            } else {
                assert(all[all.len() - 1] == violation_of(field, text));
            }
        }
        assert forall|j: int| 0 <= j < all.len() implies reported_of(
            entries,
            #[trigger] all[j],
        ) by {
            if j < rest.len() {
                let i = choose|i: int| #[trigger]
                    offends(front, i) && rest[j] == violation_of(front[i].0, front[i].1);
                assert(offends(entries, i));
            } else {
                assert(offends(entries, last));
            }
        }
    }
}

/// Validation fails exactly when some bounded field of the event is too long, and the
/// report then names every such field, not only the first.
pub proof fn lemma_every_offender_is_named(event: Event, outcome: Result<(), Vec<Violation>>)
    requires
        reports(outcome, event.entries()),
    ensures
        outcome is Err <==> exists|i: int| offends(event.entries(), i),
        forall|i: int| #[trigger]
            offends(event.entries(), i) ==> outcome is Err && names(
                outcome->Err_0@,
                event.entries()[i].0,
            ),
{
    let entries = event.entries();
    let all = violations_in(entries);
    lemma_violations_are_the_offenders(entries);
    if all.len() > 0 {
        assert(reported_of(entries, all[0]));
    }
    assert forall|i: int| #[trigger] offends(entries, i) implies outcome is Err && names(
        outcome->Err_0@,
        entries[i].0,
    ) by {
        let v = violation_of(entries[i].0, entries[i].1);
        assert(all.contains(v));
        let j = choose|j: int| 0 <= j < all.len() && all[j] == v;
        assert(all[j].field == entries[i].0);
    }
}

/// Validating one event twice gives the same verdict and the same list of violations.
pub proof fn lemma_revalidation_agrees(
    event: Event,
    first: Result<(), Vec<Violation>>,
    second: Result<(), Vec<Violation>>,
)
    requires
        reports(first, event.entries()),
        reports(second, event.entries()),
    ensures
        first is Ok <==> second is Ok,
        first is Err ==> first->Err_0@ == second->Err_0@,
{
}

} // verus!
