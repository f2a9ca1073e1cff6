//! From the kind of an event to the channel that it is published on.

use crate::models::{Event, EventKind};
use crate::text::str_eq;
use vstd::prelude::*;

verus! {

impl EventKind {
    /// The name under which the kind is reported.
    pub open spec fn label(self) -> Seq<char> {
        match self {
            EventKind::Track => "track"@,
            EventKind::Error => "error"@,
            EventKind::WebVitals => "web_vitals"@,
            EventKind::Custom => "custom"@,
            EventKind::OutgoingLink => "outgoing_link"@,
        }
    }

    /// The channel on which events of the kind are published.
    pub open spec fn topic_of(self) -> &'static str {
        match self {
            EventKind::Track => "analytics-events",
            EventKind::Error => "analytics-errors",
            EventKind::WebVitals => "analytics-web-vitals",
            EventKind::Custom => "analytics-custom-events",
            EventKind::OutgoingLink => "analytics-outgoing-links",
        }
    }

    /// The name of the channel on which events of the kind are published.
    pub open spec fn channel(self) -> Seq<char> {
        self.topic_of()@
    }

    /// The name under which the kind is reported.
    pub fn as_str(self) -> (name: &'static str)
        ensures
            name@ == self.label(),
    {
        match self {
            EventKind::Track => "track",
            EventKind::Error => "error",
            EventKind::WebVitals => "web_vitals",
            EventKind::Custom => "custom",
            EventKind::OutgoingLink => "outgoing_link",
        }
    }

    /// The channel on which events of the kind are published.
    pub fn topic(self) -> (name: &'static str)
        ensures
            name == self.topic_of(),
    {
        match self {
            EventKind::Track => "analytics-events",
            EventKind::Error => "analytics-errors",
            EventKind::WebVitals => "analytics-web-vitals",
            EventKind::Custom => "analytics-custom-events",
            EventKind::OutgoingLink => "analytics-outgoing-links",
        }
    }
}

/// The channel for a kind given by name. A name that is none of the five goes to the
/// channel of page views.
pub open spec fn topic_for(event_type: Seq<char>) -> Seq<char> {
    if event_type == "track"@ {
        "analytics-events"@
    } else if event_type == "error"@ {
        "analytics-errors"@
    } else if event_type == "web_vitals"@ {
        "analytics-web-vitals"@
    } else if event_type == "custom"@ {
        "analytics-custom-events"@
    } else if event_type == "outgoing_link"@ {
        "analytics-outgoing-links"@
    } else {
        "analytics-events"@
    }
}

/// Whether `event_type` names one of the five kinds.
pub open spec fn known_kind(event_type: Seq<char>) -> bool {
    exists|kind: EventKind| #[trigger] kind.label() == event_type
}

/// The name under which the kind of `event` is reported.
pub fn get_event_type(event: &Event) -> (name: &'static str)
    ensures
        name@ == event.kind_of().label(),
{
    event.kind().as_str()
}

/// The channel for a kind given by name. A name that is none of the five goes to the
/// channel of page views.
pub fn get_topic_name(event_type: &str) -> (topic: &'static str)
    ensures
        topic@ == topic_for(event_type@),
{
    if str_eq(event_type, "track") {
        "analytics-events"
    } else if str_eq(event_type, "error") {
        "analytics-errors"
    } else if str_eq(event_type, "web_vitals") {
        "analytics-web-vitals"
    } else if str_eq(event_type, "custom") {
        "analytics-custom-events"
    } else if str_eq(event_type, "outgoing_link") {
        "analytics-outgoing-links"
    } else {
        "analytics-events"
    }
}

/// No two kinds are reported under the same name.
pub proof fn lemma_labels_differ()
    ensures
        forall|a: EventKind, b: EventKind| #[trigger] a.label() == #[trigger] b.label() ==> a == b,
{
    reveal_strlit("track");
    reveal_strlit("error");
    reveal_strlit("web_vitals");
    reveal_strlit("custom");
    reveal_strlit("outgoing_link");
    assert forall|a: EventKind, b: EventKind| #[trigger] a.label() == #[trigger] b.label() implies a
        == b by {
        if a != b {
            let x = a.label();
            let y = b.label();
            if x.len() == y.len() {
                assert(x[0] != y[0]);
            }
        }
    }
}

/// Each of the five kinds is published on its own channel, and no two on the same.
pub proof fn lemma_known_kinds_have_distinct_channels()
    ensures
        forall|kind: EventKind| topic_for(#[trigger] kind.label()) == kind.channel(),
        forall|a: EventKind, b: EventKind| #[trigger]
            a.channel() == #[trigger] b.channel() ==> a == b,
{
    lemma_labels_differ();
    reveal_strlit("analytics-events");
    reveal_strlit("analytics-errors");
    reveal_strlit("analytics-web-vitals");
    reveal_strlit("analytics-custom-events");
    reveal_strlit("analytics-outgoing-links");
    assert forall|kind: EventKind| topic_for(#[trigger] kind.label()) == kind.channel() by {
        assert(kind.label() == EventKind::Track.label() ==> kind == EventKind::Track);
        assert(kind.label() == EventKind::Error.label() ==> kind == EventKind::Error);
        assert(kind.label() == EventKind::WebVitals.label() ==> kind == EventKind::WebVitals);
        assert(kind.label() == EventKind::Custom.label() ==> kind == EventKind::Custom);
    }
    assert forall|a: EventKind, b: EventKind| #[trigger] a.channel() == #[trigger] b.channel()
        implies a == b by {
        if a != b {
            let x = a.channel();
            let y = b.channel();
            if x.len() == y.len() {
                assert(x[12] != y[12]);
            }
        }
    }
}

/// A name that is none of the five goes to the channel of page views.
pub proof fn lemma_unknown_kind_goes_to_default(event_type: Seq<char>)
    requires
        !known_kind(event_type),
    ensures
        topic_for(event_type) == EventKind::Track.channel(),
{
    assert(EventKind::Error.label() != event_type);
    assert(EventKind::WebVitals.label() != event_type);
    assert(EventKind::Custom.label() != event_type);
    assert(EventKind::OutgoingLink.label() != event_type);
}

} // verus!
