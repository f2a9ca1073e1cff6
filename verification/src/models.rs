//! The five event payloads and the values that they are built from.
//!
//! Field names are the names of the members on the wire.

use crate::json::{Json, Number};
use vstd::prelude::*;

verus! {

/// The fields that every page view carries.
#[derive(Clone, Debug, PartialEq, Eq)]
pub struct BaseEventPayload {
    pub eventId: Option<String>,
    pub name: String,
    pub anonymousId: String,
    pub sessionId: String,
    pub sessionStartTime: i64,
    pub timestamp: i64,
    pub path: String,
    pub title: String,
    pub referrer: String,
    pub screen_resolution: String,
    pub viewport_size: String,
    pub timezone: String,
    pub language: String,
    pub connection_type: Option<String>,
    pub rtt: Option<Number>,
    pub downlink: Option<Number>,
    pub utm_source: Option<String>,
    pub utm_medium: Option<String>,
    pub utm_campaign: Option<String>,
    pub utm_term: Option<String>,
    pub utm_content: Option<String>,
}

/// A page view, with its timings and engagement figures.
#[derive(Clone, Debug, PartialEq, Eq)]
pub struct TrackEventPayload {
    pub base: BaseEventPayload,
    pub load_time: Option<Number>,
    pub dom_ready_time: Option<Number>,
    pub dom_interactive: Option<Number>,
    pub ttfb: Option<Number>,
    pub request_time: Option<Number>,
    pub render_time: Option<Number>,
    pub redirect_time: Option<Number>,
    pub domain_lookup_time: Option<Number>,
    pub connection_time: Option<Number>,
    pub page_count: Option<i32>,
    pub time_on_page: Option<Number>,
    pub scroll_depth: Option<Number>,
    pub interaction_count: Option<i32>,
    /// 0 or 1.
    pub is_bounce: Option<i32>,
    /// 0 or 1; kept apart from `has_exit_intent`.
    pub exit_intent: Option<i32>,
    pub has_exit_intent: Option<bool>,
    pub page_size: Option<i32>,
    pub href: Option<String>,
    pub text: Option<String>,
    pub value: Option<Json>,
}

/// The fields that every error and web-vitals event must carry.
#[derive(Clone, Debug, PartialEq, Eq)]
pub struct MinimalBasePayload {
    pub eventId: Option<String>,
    pub anonymousId: String,
    pub sessionId: String,
    pub timestamp: i64,
    pub path: String,
}

/// `MinimalBasePayload` with what is known of the client's surroundings.
#[derive(Clone, Debug, PartialEq, Eq)]
pub struct ContextBasePayload {
    pub base: MinimalBasePayload,
    pub screen_resolution: Option<String>,
    pub viewport_size: Option<String>,
    pub connection_type: Option<String>,
    pub language: Option<String>,
    pub timezone: Option<String>,
}

/// An error raised in the client.
#[derive(Clone, Debug, PartialEq, Eq)]
pub struct ErrorEventPayload {
    pub base: ContextBasePayload,
    pub message: String,
    pub filename: Option<String>,
    pub lineno: Option<i32>,
    pub colno: Option<i32>,
    pub stack: Option<String>,
    pub errorType: Option<String>,
}

/// Web-vitals measurements of one page.
#[derive(Clone, Debug, PartialEq, Eq)]
pub struct WebVitalsEventPayload {
    pub base: ContextBasePayload,
    pub fcp: Option<Number>,
    pub lcp: Option<Number>,
    pub cls: Option<Number>,
    pub fid: Option<Number>,
    pub inp: Option<Number>,
}

/// An event that the client names itself.
#[derive(Clone, Debug, PartialEq, Eq)]
pub struct CustomEventPayload {
    pub eventId: Option<String>,
    pub name: String,
    pub anonymousId: Option<String>,
    pub sessionId: Option<String>,
    pub timestamp: Option<i64>,
    pub properties: Option<Json>,
}

/// A click on a link that leaves the site.
#[derive(Clone, Debug, PartialEq, Eq)]
pub struct OutgoingLinkPayload {
    pub eventId: String,
    pub anonymousId: Option<String>,
    pub sessionId: Option<String>,
    pub timestamp: Option<i64>,
    pub href: String,
    pub text: Option<String>,
    pub properties: Option<Json>,
}

/// One event, of exactly one of the five kinds.
#[derive(Clone, Debug, PartialEq, Eq)]
pub enum Event {
    Track(TrackEventPayload),
    Error(ErrorEventPayload),
    WebVitals(WebVitalsEventPayload),
    Custom(CustomEventPayload),
    OutgoingLink(OutgoingLinkPayload),
}

/// What one request may carry: one event, or a list of them.
#[derive(Clone, Debug, PartialEq, Eq)]
pub enum IngestRequest {
    Single(Event),
    Batch(Vec<Event>),
}

/// The five kinds of event, in the order in which a payload is tried against them.
#[derive(Clone, Copy, Debug, PartialEq, Eq, Structural)]
pub enum EventKind {
    Track,
    Error,
    WebVitals,
    Custom,
    OutgoingLink,
}

impl Event {
    /// The kind of this event.
    pub open spec fn kind_of(self) -> EventKind {
        match self {
            Event::Track(_) => EventKind::Track,
            Event::Error(_) => EventKind::Error,
            Event::WebVitals(_) => EventKind::WebVitals,
            Event::Custom(_) => EventKind::Custom,
            Event::OutgoingLink(_) => EventKind::OutgoingLink,
        }
    }

    /// The kind of this event.
    pub fn kind(&self) -> (k: EventKind)
        ensures
            k == self.kind_of(),
    {
        match self {
            Event::Track(_) => EventKind::Track,
            Event::Error(_) => EventKind::Error,
            Event::WebVitals(_) => EventKind::WebVitals,
            Event::Custom(_) => EventKind::Custom,
            Event::OutgoingLink(_) => EventKind::OutgoingLink,
        }
    }
}

} // verus!
