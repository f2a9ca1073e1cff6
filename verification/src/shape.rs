//! From an untyped JSON value to a typed event.
//!
//! A payload is an object. Each payload type names the members that it must find, and
//! of what type, and the members that it may find. A payload type fits an object when
//! every member that it must find is there with the right type, and every member that
//! it may find is absent, `null`, or there with the right type. Members that the
//! payload type does not name are passed over.
//!
//! The five kinds are tried in a fixed order: page view, error, web vitals, custom,
//! outgoing link. The first kind that fits is the kind of the event, also where a later
//! kind would fit as well.

use crate::json::{
    i64_at, opt_any_at, opt_bool_at, opt_i32_at, opt_i64_at, opt_number_at, opt_text_at,
    read_i64, read_opt_bool, read_opt_i32, read_opt_i64, read_opt_number, read_opt_text,
    read_text, take_opt_any, text_at, without, Json, Member,
};
use crate::models::{
    BaseEventPayload, ContextBasePayload, CustomEventPayload, ErrorEventPayload, Event,
    EventKind, MinimalBasePayload, OutgoingLinkPayload, TrackEventPayload,
    WebVitalsEventPayload,
};
use vstd::prelude::*;

verus! {

/// Why no event could be read from a payload.
#[derive(Clone, Copy, Debug, PartialEq, Eq, Structural)]
pub enum ShapeError {
    /// The payload fits none of the five kinds.
    UnrecognizedShape,
}

impl BaseEventPayload {
    /// Whether `members` hold the fields that every page view carries.
    pub open spec fn fits(members: Seq<Member>) -> bool {
        &&& opt_text_at(members, "eventId"@) is Some
        &&& text_at(members, "name"@) is Some
        &&& text_at(members, "anonymousId"@) is Some
        &&& text_at(members, "sessionId"@) is Some
        &&& i64_at(members, "sessionStartTime"@) is Some
        &&& i64_at(members, "timestamp"@) is Some
        &&& text_at(members, "path"@) is Some
        &&& text_at(members, "title"@) is Some
        &&& text_at(members, "referrer"@) is Some
        &&& text_at(members, "screen_resolution"@) is Some
        &&& text_at(members, "viewport_size"@) is Some
        &&& text_at(members, "timezone"@) is Some
        &&& text_at(members, "language"@) is Some
        &&& opt_text_at(members, "connection_type"@) is Some
        &&& opt_number_at(members, "rtt"@) is Some
        &&& opt_number_at(members, "downlink"@) is Some
        &&& opt_text_at(members, "utm_source"@) is Some
        &&& opt_text_at(members, "utm_medium"@) is Some
        &&& opt_text_at(members, "utm_campaign"@) is Some
        &&& opt_text_at(members, "utm_term"@) is Some
        &&& opt_text_at(members, "utm_content"@) is Some
    }

    /// The payload that `members` hold, where they fit.
    pub open spec fn read_from(members: Seq<Member>) -> Self {
        BaseEventPayload {
            eventId: opt_text_at(members, "eventId"@)->0,
            name: text_at(members, "name"@)->0,
            anonymousId: text_at(members, "anonymousId"@)->0,
            sessionId: text_at(members, "sessionId"@)->0,
            sessionStartTime: i64_at(members, "sessionStartTime"@)->0,
            timestamp: i64_at(members, "timestamp"@)->0,
            path: text_at(members, "path"@)->0,
            title: text_at(members, "title"@)->0,
            referrer: text_at(members, "referrer"@)->0,
            screen_resolution: text_at(members, "screen_resolution"@)->0,
            viewport_size: text_at(members, "viewport_size"@)->0,
            timezone: text_at(members, "timezone"@)->0,
            language: text_at(members, "language"@)->0,
            connection_type: opt_text_at(members, "connection_type"@)->0,
            rtt: opt_number_at(members, "rtt"@)->0,
            downlink: opt_number_at(members, "downlink"@)->0,
            utm_source: opt_text_at(members, "utm_source"@)->0,
            utm_medium: opt_text_at(members, "utm_medium"@)->0,
            utm_campaign: opt_text_at(members, "utm_campaign"@)->0,
            utm_term: opt_text_at(members, "utm_term"@)->0,
            utm_content: opt_text_at(members, "utm_content"@)->0,
        }
    }

    /// The payload that `members` hold, if they fit.
    pub open spec fn parsed(members: Seq<Member>) -> Option<Self> {
        if Self::fits(members) {
            Some(Self::read_from(members))
        } else {
            None
        }
    }

    /// Reads the fields that every page view carries from `members`.
    pub fn from_members(members: &Vec<Member>) -> (payload: Option<Self>)
        ensures
            payload == Self::parsed(members@),
    {
        let eventId = read_opt_text(members, "eventId")?;
        let name = read_text(members, "name")?;
        let anonymousId = read_text(members, "anonymousId")?;
        let sessionId = read_text(members, "sessionId")?;
        let sessionStartTime = read_i64(members, "sessionStartTime")?;
        let timestamp = read_i64(members, "timestamp")?;
        let path = read_text(members, "path")?;
        let title = read_text(members, "title")?;
        let referrer = read_text(members, "referrer")?;
        let screen_resolution = read_text(members, "screen_resolution")?;
        let viewport_size = read_text(members, "viewport_size")?;
        let timezone = read_text(members, "timezone")?;
        let language = read_text(members, "language")?;
        let connection_type = read_opt_text(members, "connection_type")?;
        let rtt = read_opt_number(members, "rtt")?;
        let downlink = read_opt_number(members, "downlink")?;
        let utm_source = read_opt_text(members, "utm_source")?;
        let utm_medium = read_opt_text(members, "utm_medium")?;
        let utm_campaign = read_opt_text(members, "utm_campaign")?;
        let utm_term = read_opt_text(members, "utm_term")?;
        let utm_content = read_opt_text(members, "utm_content")?;
        Some(BaseEventPayload {
            eventId,
            name,
            anonymousId,
            sessionId,
            sessionStartTime,
            timestamp,
            path,
            title,
            referrer,
            screen_resolution,
            viewport_size,
            timezone,
            language,
            connection_type,
            rtt,
            downlink,
            utm_source,
            utm_medium,
            utm_campaign,
            utm_term,
            utm_content,
        })
    }
}

impl TrackEventPayload {
    /// Whether `members` hold a page view.
    pub open spec fn fits(members: Seq<Member>) -> bool {
        &&& BaseEventPayload::fits(members)
        &&& opt_number_at(members, "load_time"@) is Some
        &&& opt_number_at(members, "dom_ready_time"@) is Some
        &&& opt_number_at(members, "dom_interactive"@) is Some
        &&& opt_number_at(members, "ttfb"@) is Some
        &&& opt_number_at(members, "request_time"@) is Some
        &&& opt_number_at(members, "render_time"@) is Some
        &&& opt_number_at(members, "redirect_time"@) is Some
        &&& opt_number_at(members, "domain_lookup_time"@) is Some
        &&& opt_number_at(members, "connection_time"@) is Some
        &&& opt_i32_at(members, "page_count"@) is Some
        &&& opt_number_at(members, "time_on_page"@) is Some
        &&& opt_number_at(members, "scroll_depth"@) is Some
        &&& opt_i32_at(members, "interaction_count"@) is Some
        &&& opt_i32_at(members, "is_bounce"@) is Some
        &&& opt_i32_at(members, "exit_intent"@) is Some
        &&& opt_bool_at(members, "has_exit_intent"@) is Some
        &&& opt_i32_at(members, "page_size"@) is Some
        &&& opt_text_at(members, "href"@) is Some
        &&& opt_text_at(members, "text"@) is Some
    }

    /// The payload that `members` hold, where they fit.
    pub open spec fn read_from(members: Seq<Member>) -> Self {
        TrackEventPayload {
            base: BaseEventPayload::read_from(members),
            load_time: opt_number_at(members, "load_time"@)->0,
            dom_ready_time: opt_number_at(members, "dom_ready_time"@)->0,
            dom_interactive: opt_number_at(members, "dom_interactive"@)->0,
            ttfb: opt_number_at(members, "ttfb"@)->0,
            request_time: opt_number_at(members, "request_time"@)->0,
            render_time: opt_number_at(members, "render_time"@)->0,
            redirect_time: opt_number_at(members, "redirect_time"@)->0,
            domain_lookup_time: opt_number_at(members, "domain_lookup_time"@)->0,
            connection_time: opt_number_at(members, "connection_time"@)->0,
            page_count: opt_i32_at(members, "page_count"@)->0,
            time_on_page: opt_number_at(members, "time_on_page"@)->0,
            scroll_depth: opt_number_at(members, "scroll_depth"@)->0,
            interaction_count: opt_i32_at(members, "interaction_count"@)->0,
            is_bounce: opt_i32_at(members, "is_bounce"@)->0,
            exit_intent: opt_i32_at(members, "exit_intent"@)->0,
            has_exit_intent: opt_bool_at(members, "has_exit_intent"@)->0,
            page_size: opt_i32_at(members, "page_size"@)->0,
            href: opt_text_at(members, "href"@)->0,
            text: opt_text_at(members, "text"@)->0,
            value: opt_any_at(members, "value"@),
        }
    }

    /// The payload that `members` hold, if they fit.
    pub open spec fn parsed(members: Seq<Member>) -> Option<Self> {
        if Self::fits(members) {
            Some(Self::read_from(members))
        } else {
            None
        }
    }

    /// Reads a page view from `members`. The member of open shape is
    /// moved out of `members` into the payload; where the members do not fit, they
    /// are left as they were.
    pub fn from_members(members: &mut Vec<Member>) -> (payload: Option<Self>)
        ensures
            payload == Self::parsed(old(members)@),
            final(members)@ == if payload is Some {
                without(old(members)@, "value"@)
            } else {
                old(members)@
            },
    {
        let base = BaseEventPayload::from_members(&*members)?;
        let load_time = read_opt_number(&*members, "load_time")?;
        let dom_ready_time = read_opt_number(&*members, "dom_ready_time")?;
        let dom_interactive = read_opt_number(&*members, "dom_interactive")?;
        let ttfb = read_opt_number(&*members, "ttfb")?;
        let request_time = read_opt_number(&*members, "request_time")?;
        let render_time = read_opt_number(&*members, "render_time")?;
        let redirect_time = read_opt_number(&*members, "redirect_time")?;
        let domain_lookup_time = read_opt_number(&*members, "domain_lookup_time")?;
        let connection_time = read_opt_number(&*members, "connection_time")?;
        let page_count = read_opt_i32(&*members, "page_count")?;
        let time_on_page = read_opt_number(&*members, "time_on_page")?;
        let scroll_depth = read_opt_number(&*members, "scroll_depth")?;
        let interaction_count = read_opt_i32(&*members, "interaction_count")?;
        let is_bounce = read_opt_i32(&*members, "is_bounce")?;
        let exit_intent = read_opt_i32(&*members, "exit_intent")?;
        let has_exit_intent = read_opt_bool(&*members, "has_exit_intent")?;
        let page_size = read_opt_i32(&*members, "page_size")?;
        let href = read_opt_text(&*members, "href")?;
        let text = read_opt_text(&*members, "text")?;
        let value = take_opt_any(members, "value");
        Some(TrackEventPayload {
            base,
            load_time,
            dom_ready_time,
            dom_interactive,
            ttfb,
            request_time,
            render_time,
            redirect_time,
            domain_lookup_time,
            connection_time,
            page_count,
            time_on_page,
            scroll_depth,
            interaction_count,
            is_bounce,
            exit_intent,
            has_exit_intent,
            page_size,
            href,
            text,
            value,
        })
    }
}

impl MinimalBasePayload {
    /// Whether `members` hold the fields that errors and web vitals must carry.
    pub open spec fn fits(members: Seq<Member>) -> bool {
        &&& opt_text_at(members, "eventId"@) is Some
        &&& text_at(members, "anonymousId"@) is Some
        &&& text_at(members, "sessionId"@) is Some
        &&& i64_at(members, "timestamp"@) is Some
        &&& text_at(members, "path"@) is Some
    }

    /// The payload that `members` hold, where they fit.
    pub open spec fn read_from(members: Seq<Member>) -> Self {
        MinimalBasePayload {
            eventId: opt_text_at(members, "eventId"@)->0,
            anonymousId: text_at(members, "anonymousId"@)->0,
            sessionId: text_at(members, "sessionId"@)->0,
            timestamp: i64_at(members, "timestamp"@)->0,
            path: text_at(members, "path"@)->0,
        }
    }

    /// The payload that `members` hold, if they fit.
    pub open spec fn parsed(members: Seq<Member>) -> Option<Self> {
        if Self::fits(members) {
            Some(Self::read_from(members))
        } else {
            None
        }
    }

    /// Reads the fields that errors and web vitals must carry from `members`.
    pub fn from_members(members: &Vec<Member>) -> (payload: Option<Self>)
        ensures
            payload == Self::parsed(members@),
    {
        let eventId = read_opt_text(members, "eventId")?;
        let anonymousId = read_text(members, "anonymousId")?;
        let sessionId = read_text(members, "sessionId")?;
        let timestamp = read_i64(members, "timestamp")?;
        let path = read_text(members, "path")?;
        Some(MinimalBasePayload {
            eventId,
            anonymousId,
            sessionId,
            timestamp,
            path,
        })
    }
}

impl ContextBasePayload {
    /// Whether `members` hold the fields that error and web-vitals events share.
    pub open spec fn fits(members: Seq<Member>) -> bool {
        &&& MinimalBasePayload::fits(members)
        &&& opt_text_at(members, "screen_resolution"@) is Some
        &&& opt_text_at(members, "viewport_size"@) is Some
        &&& opt_text_at(members, "connection_type"@) is Some
        &&& opt_text_at(members, "language"@) is Some
        &&& opt_text_at(members, "timezone"@) is Some
    }

    /// The payload that `members` hold, where they fit.
    pub open spec fn read_from(members: Seq<Member>) -> Self {
        ContextBasePayload {
            base: MinimalBasePayload::read_from(members),
            screen_resolution: opt_text_at(members, "screen_resolution"@)->0,
            viewport_size: opt_text_at(members, "viewport_size"@)->0,
            connection_type: opt_text_at(members, "connection_type"@)->0,
            language: opt_text_at(members, "language"@)->0,
            timezone: opt_text_at(members, "timezone"@)->0,
        }
    }

    /// The payload that `members` hold, if they fit.
    pub open spec fn parsed(members: Seq<Member>) -> Option<Self> {
        if Self::fits(members) {
            Some(Self::read_from(members))
        } else {
            None
        }
    }

    /// Reads the fields that error and web-vitals events share from `members`.
    pub fn from_members(members: &Vec<Member>) -> (payload: Option<Self>)
        ensures
            payload == Self::parsed(members@),
    {
        let base = MinimalBasePayload::from_members(members)?;
        let screen_resolution = read_opt_text(members, "screen_resolution")?;
        let viewport_size = read_opt_text(members, "viewport_size")?;
        let connection_type = read_opt_text(members, "connection_type")?;
        let language = read_opt_text(members, "language")?;
        let timezone = read_opt_text(members, "timezone")?;
        Some(ContextBasePayload {
            base,
            screen_resolution,
            viewport_size,
            connection_type,
            language,
            timezone,
        })
    }
}

impl ErrorEventPayload {
    /// Whether `members` hold an error event.
    pub open spec fn fits(members: Seq<Member>) -> bool {
        &&& ContextBasePayload::fits(members)
        &&& text_at(members, "message"@) is Some
        &&& opt_text_at(members, "filename"@) is Some
        &&& opt_i32_at(members, "lineno"@) is Some
        &&& opt_i32_at(members, "colno"@) is Some
        &&& opt_text_at(members, "stack"@) is Some
        &&& opt_text_at(members, "errorType"@) is Some
    }

    /// The payload that `members` hold, where they fit.
    pub open spec fn read_from(members: Seq<Member>) -> Self {
        ErrorEventPayload {
            base: ContextBasePayload::read_from(members),
            message: text_at(members, "message"@)->0,
            filename: opt_text_at(members, "filename"@)->0,
            lineno: opt_i32_at(members, "lineno"@)->0,
            colno: opt_i32_at(members, "colno"@)->0,
            stack: opt_text_at(members, "stack"@)->0,
            errorType: opt_text_at(members, "errorType"@)->0,
        }
    }

    /// The payload that `members` hold, if they fit.
    pub open spec fn parsed(members: Seq<Member>) -> Option<Self> {
        if Self::fits(members) {
            Some(Self::read_from(members))
        } else {
            None
        }
    }

    /// Reads an error event from `members`.
    pub fn from_members(members: &Vec<Member>) -> (payload: Option<Self>)
        ensures
            payload == Self::parsed(members@),
    {
        let base = ContextBasePayload::from_members(members)?;
        let message = read_text(members, "message")?;
        let filename = read_opt_text(members, "filename")?;
        let lineno = read_opt_i32(members, "lineno")?;
        let colno = read_opt_i32(members, "colno")?;
        let stack = read_opt_text(members, "stack")?;
        let errorType = read_opt_text(members, "errorType")?;
        Some(ErrorEventPayload {
            base,
            message,
            filename,
            lineno,
            colno,
            stack,
            errorType,
        })
    }
}

impl WebVitalsEventPayload {
    /// Whether `members` hold a web-vitals event.
    pub open spec fn fits(members: Seq<Member>) -> bool {
        &&& ContextBasePayload::fits(members)
        &&& opt_number_at(members, "fcp"@) is Some
        &&& opt_number_at(members, "lcp"@) is Some
        &&& opt_number_at(members, "cls"@) is Some
        &&& opt_number_at(members, "fid"@) is Some
        &&& opt_number_at(members, "inp"@) is Some
    }

    /// The payload that `members` hold, where they fit.
    pub open spec fn read_from(members: Seq<Member>) -> Self {
        WebVitalsEventPayload {
            base: ContextBasePayload::read_from(members),
            fcp: opt_number_at(members, "fcp"@)->0,
            lcp: opt_number_at(members, "lcp"@)->0,
            cls: opt_number_at(members, "cls"@)->0,
            fid: opt_number_at(members, "fid"@)->0,
            inp: opt_number_at(members, "inp"@)->0,
        }
    }

    /// The payload that `members` hold, if they fit.
    pub open spec fn parsed(members: Seq<Member>) -> Option<Self> {
        if Self::fits(members) {
            Some(Self::read_from(members))
        } else {
            None
        }
    }

    /// Reads a web-vitals event from `members`.
    pub fn from_members(members: &Vec<Member>) -> (payload: Option<Self>)
        ensures
            payload == Self::parsed(members@),
    {
        let base = ContextBasePayload::from_members(members)?;
        let fcp = read_opt_number(members, "fcp")?;
        let lcp = read_opt_number(members, "lcp")?;
        let cls = read_opt_number(members, "cls")?;
        let fid = read_opt_number(members, "fid")?;
        let inp = read_opt_number(members, "inp")?;
        Some(WebVitalsEventPayload {
            base,
            fcp,
            lcp,
            cls,
            fid,
            inp,
        })
    }
}

impl CustomEventPayload {
    /// Whether `members` hold a custom event.
    pub open spec fn fits(members: Seq<Member>) -> bool {
        &&& opt_text_at(members, "eventId"@) is Some
        &&& text_at(members, "name"@) is Some
        &&& opt_text_at(members, "anonymousId"@) is Some
        &&& opt_text_at(members, "sessionId"@) is Some
        &&& opt_i64_at(members, "timestamp"@) is Some
    }

    /// The payload that `members` hold, where they fit.
    pub open spec fn read_from(members: Seq<Member>) -> Self {
        CustomEventPayload {
            eventId: opt_text_at(members, "eventId"@)->0,
            name: text_at(members, "name"@)->0,
            anonymousId: opt_text_at(members, "anonymousId"@)->0,
            sessionId: opt_text_at(members, "sessionId"@)->0,
            timestamp: opt_i64_at(members, "timestamp"@)->0,
            properties: opt_any_at(members, "properties"@),
        }
    }

    /// The payload that `members` hold, if they fit.
    pub open spec fn parsed(members: Seq<Member>) -> Option<Self> {
        if Self::fits(members) {
            Some(Self::read_from(members))
        } else {
            None
        }
    }

    /// Reads a custom event from `members`. The member of open shape is
    /// moved out of `members` into the payload; where the members do not fit, they
    /// are left as they were.
    pub fn from_members(members: &mut Vec<Member>) -> (payload: Option<Self>)
        ensures
            payload == Self::parsed(old(members)@),
            final(members)@ == if payload is Some {
                without(old(members)@, "properties"@)
            } else {
                old(members)@
            },
    {
        let eventId = read_opt_text(&*members, "eventId")?;
        let name = read_text(&*members, "name")?;
        let anonymousId = read_opt_text(&*members, "anonymousId")?;
        let sessionId = read_opt_text(&*members, "sessionId")?;
        let timestamp = read_opt_i64(&*members, "timestamp")?;
        let properties = take_opt_any(members, "properties");
        Some(CustomEventPayload {
            eventId,
            name,
            anonymousId,
            sessionId,
            timestamp,
            properties,
        })
    }
}

impl OutgoingLinkPayload {
    /// Whether `members` hold an outgoing-link event.
    pub open spec fn fits(members: Seq<Member>) -> bool {
        &&& text_at(members, "eventId"@) is Some
        &&& opt_text_at(members, "anonymousId"@) is Some
        &&& opt_text_at(members, "sessionId"@) is Some
        &&& opt_i64_at(members, "timestamp"@) is Some
        &&& text_at(members, "href"@) is Some
        &&& opt_text_at(members, "text"@) is Some
    }

    /// The payload that `members` hold, where they fit.
    pub open spec fn read_from(members: Seq<Member>) -> Self {
        OutgoingLinkPayload {
            eventId: text_at(members, "eventId"@)->0,
            anonymousId: opt_text_at(members, "anonymousId"@)->0,
            sessionId: opt_text_at(members, "sessionId"@)->0,
            timestamp: opt_i64_at(members, "timestamp"@)->0,
            href: text_at(members, "href"@)->0,
            text: opt_text_at(members, "text"@)->0,
            properties: opt_any_at(members, "properties"@),
        }
    }

    /// The payload that `members` hold, if they fit.
    pub open spec fn parsed(members: Seq<Member>) -> Option<Self> {
        if Self::fits(members) {
            Some(Self::read_from(members))
        } else {
            None
        }
    }

    /// Reads an outgoing-link event from `members`. The member of open shape is
    /// moved out of `members` into the payload; where the members do not fit, they
    /// are left as they were.
    pub fn from_members(members: &mut Vec<Member>) -> (payload: Option<Self>)
        ensures
            payload == Self::parsed(old(members)@),
            final(members)@ == if payload is Some {
                without(old(members)@, "properties"@)
            } else {
                old(members)@
            },
    {
        let eventId = read_text(&*members, "eventId")?;
        let anonymousId = read_opt_text(&*members, "anonymousId")?;
        let sessionId = read_opt_text(&*members, "sessionId")?;
        let timestamp = read_opt_i64(&*members, "timestamp")?;
        let href = read_text(&*members, "href")?;
        let text = read_opt_text(&*members, "text")?;
        let properties = take_opt_any(members, "properties");
        Some(OutgoingLinkPayload {
            eventId,
            anonymousId,
            sessionId,
            timestamp,
            href,
            text,
            properties,
        })
    }
}

/// Whether `members` hold an event of `kind`.
pub open spec fn fits_kind(kind: EventKind, members: Seq<Member>) -> bool {
    match kind {
        EventKind::Track => TrackEventPayload::fits(members),
        EventKind::Error => ErrorEventPayload::fits(members),
        EventKind::WebVitals => WebVitalsEventPayload::fits(members),
        EventKind::Custom => CustomEventPayload::fits(members),
        EventKind::OutgoingLink => OutgoingLinkPayload::fits(members),
    }
}

/// The event of `kind` that `members` hold, where they fit.
pub open spec fn read_kind(kind: EventKind, members: Seq<Member>) -> Event {
    match kind {
        EventKind::Track => Event::Track(TrackEventPayload::read_from(members)),
        EventKind::Error => Event::Error(ErrorEventPayload::read_from(members)),
        EventKind::WebVitals => Event::WebVitals(WebVitalsEventPayload::read_from(members)),
        EventKind::Custom => Event::Custom(CustomEventPayload::read_from(members)),
        EventKind::OutgoingLink => Event::OutgoingLink(OutgoingLinkPayload::read_from(members)),
    }
}

impl EventKind {
    /// The place of the kind in the order in which the kinds are tried.
    pub open spec fn rank(self) -> nat {
        match self {
            EventKind::Track => 0,
            EventKind::Error => 1,
            EventKind::WebVitals => 2,
            EventKind::Custom => 3,
            EventKind::OutgoingLink => 4,
        }
    }
}

/// The event of a given kind that `raw` holds.
pub open spec fn discriminated_as(kind: EventKind, raw: Json) -> Result<Event, ShapeError> {
    match raw {
        Json::Object(members) => if fits_kind(kind, members@) {
            Ok(read_kind(kind, members@))
        } else {
            Err(ShapeError::UnrecognizedShape)
        },
        _ => Err(ShapeError::UnrecognizedShape),
    }
}

/// The event that `raw` holds: of the first kind, in the fixed order, that fits.
pub open spec fn discriminated(raw: Json) -> Result<Event, ShapeError> {
    if discriminated_as(EventKind::Track, raw) is Ok {
        discriminated_as(EventKind::Track, raw)
    } else if discriminated_as(EventKind::Error, raw) is Ok {
        discriminated_as(EventKind::Error, raw)
    } else if discriminated_as(EventKind::WebVitals, raw) is Ok {
        discriminated_as(EventKind::WebVitals, raw)
    } else if discriminated_as(EventKind::Custom, raw) is Ok {
        discriminated_as(EventKind::Custom, raw)
    } else {
        discriminated_as(EventKind::OutgoingLink, raw)
    }
}

/// Reads an event of any kind from `raw`. The kinds are tried in the fixed order, and
/// the first that fits is taken. `UnrecognizedShape` says that `raw` is no object, or
/// that none of the five kinds fits it.
pub fn discriminate(raw: Json) -> (event: Result<Event, ShapeError>)
    ensures
        event == discriminated(raw),
{
    match raw {
        Json::Object(members) => {
            let mut members = members;
            if let Some(payload) = TrackEventPayload::from_members(&mut members) {
                return Ok(Event::Track(payload));
            }
            if let Some(payload) = ErrorEventPayload::from_members(&members) {
                return Ok(Event::Error(payload));
            }
            if let Some(payload) = WebVitalsEventPayload::from_members(&members) {
                return Ok(Event::WebVitals(payload));
            }
            if let Some(payload) = CustomEventPayload::from_members(&mut members) {
                return Ok(Event::Custom(payload));
            }
            if let Some(payload) = OutgoingLinkPayload::from_members(&mut members) {
                return Ok(Event::OutgoingLink(payload));
            }
            Err(ShapeError::UnrecognizedShape)
        },
        _ => Err(ShapeError::UnrecognizedShape),
    }
}

/// Reads an event of the one kind `kind` from `raw`. `UnrecognizedShape` says that `raw`
/// is no object, or that the kind does not fit it.
pub fn discriminate_as(kind: EventKind, raw: Json) -> (event: Result<Event, ShapeError>)
    ensures
        event == discriminated_as(kind, raw),
{
    match raw {
        Json::Object(members) => {
            let mut members = members;
            let found = match kind {
                EventKind::Track => match TrackEventPayload::from_members(&mut members) {
                    Some(payload) => Some(Event::Track(payload)),
                    None => None,
                },
                EventKind::Error => match ErrorEventPayload::from_members(&members) {
                    Some(payload) => Some(Event::Error(payload)),
                    None => None,
                },
                EventKind::WebVitals => match WebVitalsEventPayload::from_members(&members) {
                    Some(payload) => Some(Event::WebVitals(payload)),
                    None => None,
                },
                EventKind::Custom => match CustomEventPayload::from_members(&mut members) {
                    Some(payload) => Some(Event::Custom(payload)),
                    None => None,
                },
                EventKind::OutgoingLink => match OutgoingLinkPayload::from_members(&mut members) {
                    Some(payload) => Some(Event::OutgoingLink(payload)),
                    None => None,
                },
            };
            match found {
                Some(event) => Ok(event),
                None => Err(ShapeError::UnrecognizedShape),
            }
        },
        _ => Err(ShapeError::UnrecognizedShape),
    }
}

/// Whether `kind` is the first kind, in the fixed order, that fits `raw`.
pub open spec fn first_fit(raw: Json, kind: EventKind) -> bool {
    &&& raw matches Json::Object(members)
    &&& fits_kind(kind, members@)
    &&& forall|earlier: EventKind|
        earlier.rank() < kind.rank() ==> !#[trigger] fits_kind(earlier, members@)
}

/// A payload is read as an event of `kind` exactly when `kind` fits it and no kind that
/// is tried earlier does; the event is then what that kind reads from the payload.
pub proof fn lemma_first_fit_wins(raw: Json, kind: EventKind)
    ensures
        first_fit(raw, kind) <==> discriminated(raw) is Ok && discriminated(raw)->Ok_0.kind_of()
            == kind,
        first_fit(raw, kind) ==> discriminated(raw) == discriminated_as(kind, raw),
{
}

/// A payload is read as at most one kind of event: reading is a function of the payload.
pub proof fn lemma_one_kind_only(raw: Json, a: EventKind, b: EventKind)
    requires
        first_fit(raw, a),
        first_fit(raw, b),
    ensures
        a == b,
{
    lemma_first_fit_wins(raw, a);
    lemma_first_fit_wins(raw, b);
}

/// A payload that fits both a page view and a custom event is read as a page view.
pub proof fn lemma_track_before_custom(raw: Json)
    requires
        discriminated_as(EventKind::Track, raw) is Ok,
        discriminated_as(EventKind::Custom, raw) is Ok,
    ensures
        discriminated(raw) == discriminated_as(EventKind::Track, raw),
        discriminated(raw) matches Ok(event) && event is Track,
{
}

} // verus!
