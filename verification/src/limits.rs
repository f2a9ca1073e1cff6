//! The table of length bounds: one entry for each bounded field, whatever payload
//! carries it.

use vstd::prelude::*;

verus! {

/// A field whose text has a maximum length, counted in characters.
#[derive(Clone, Copy, Debug, PartialEq, Eq, Structural)]
pub enum Field {
    EventId,
    Name,
    AnonymousId,
    SessionId,
    Path,
    Title,
    Referrer,
    Timezone,
    Language,
    UtmSource,
    UtmMedium,
    UtmCampaign,
    UtmTerm,
    UtmContent,
    Href,
    Text,
    Message,
    Filename,
    Stack,
    ErrorType,
}

impl Field {
    /// The most characters that the field may hold.
    pub open spec fn bound(self) -> nat {
        match self {
            Field::EventId => 512,
            Field::Name => 255,
            Field::AnonymousId => 128,
            Field::SessionId => 128,
            Field::Path => 2048,
            Field::Title => 2048,
            Field::Referrer => 2048,
            Field::Timezone => 64,
            Field::Language => 35,
            Field::UtmSource => 512,
            Field::UtmMedium => 512,
            Field::UtmCampaign => 512,
            Field::UtmTerm => 512,
            Field::UtmContent => 512,
            Field::Href => 2048,
            Field::Text => 2048,
            Field::Message => 2048,
            Field::Filename => 2048,
            Field::Stack => 2048,
            Field::ErrorType => 255,
        }
    }

    /// The name of the field on the wire.
    pub open spec fn wire_name(self) -> Seq<char> {
        match self {
            Field::EventId => "eventId"@,
            Field::Name => "name"@,
            Field::AnonymousId => "anonymousId"@,
            Field::SessionId => "sessionId"@,
            Field::Path => "path"@,
            Field::Title => "title"@,
            Field::Referrer => "referrer"@,
            Field::Timezone => "timezone"@,
            Field::Language => "language"@,
            Field::UtmSource => "utm_source"@,
            Field::UtmMedium => "utm_medium"@,
            Field::UtmCampaign => "utm_campaign"@,
            Field::UtmTerm => "utm_term"@,
            Field::UtmContent => "utm_content"@,
            Field::Href => "href"@,
            Field::Text => "text"@,
            Field::Message => "message"@,
            Field::Filename => "filename"@,
            Field::Stack => "stack"@,
            Field::ErrorType => "errorType"@,
        }
    }

    /// The most characters that the field may hold.
    pub fn max_length(self) -> (max: u64)
        ensures
            max == self.bound(),
    {
        match self {
            Field::EventId => 512,
            Field::Name => 255,
            Field::AnonymousId => 128,
            Field::SessionId => 128,
            Field::Path => 2048,
            Field::Title => 2048,
            Field::Referrer => 2048,
            Field::Timezone => 64,
            Field::Language => 35,
            Field::UtmSource => 512,
            Field::UtmMedium => 512,
            Field::UtmCampaign => 512,
            Field::UtmTerm => 512,
            Field::UtmContent => 512,
            Field::Href => 2048,
            Field::Text => 2048,
            Field::Message => 2048,
            Field::Filename => 2048,
            Field::Stack => 2048,
            Field::ErrorType => 255,
        }
    }

    /// The name of the field on the wire.
    pub fn name(self) -> (name: &'static str)
        ensures
            name@ == self.wire_name(),
    {
        match self {
            Field::EventId => "eventId",
            Field::Name => "name",
            Field::AnonymousId => "anonymousId",
            Field::SessionId => "sessionId",
            Field::Path => "path",
            Field::Title => "title",
            Field::Referrer => "referrer",
            Field::Timezone => "timezone",
            Field::Language => "language",
            Field::UtmSource => "utm_source",
            Field::UtmMedium => "utm_medium",
            Field::UtmCampaign => "utm_campaign",
            Field::UtmTerm => "utm_term",
            Field::UtmContent => "utm_content",
            Field::Href => "href",
            Field::Text => "text",
            Field::Message => "message",
            Field::Filename => "filename",
            Field::Stack => "stack",
            Field::ErrorType => "errorType",
        }
    }
}

} // verus!
