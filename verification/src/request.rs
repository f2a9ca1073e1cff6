//! The body of a request that may carry one event or a list of events.

use crate::json::Json;
use crate::models::{Event, IngestRequest};
use crate::shape::{discriminate, discriminated, ShapeError};
use vstd::prelude::*;

verus! {

/// Whether every one of `items` is read as an event.
pub open spec fn all_read(items: Seq<Json>) -> bool {
    forall|i: int| 0 <= i < items.len() ==> discriminated(#[trigger] items[i]) is Ok
}

/// Whether `events` are the events that `items` are read as, one for one.
pub open spec fn read_as(events: Seq<Event>, items: Seq<Json>) -> bool {
    &&& events.len() == items.len()
    &&& forall|i: int|
        0 <= i < items.len() ==> discriminated(items[i]) == Ok::<Event, ShapeError>(
            #[trigger] events[i],
        )
}

/// Whether `request` is what `raw` is read as: a payload that is read as an event is a
/// single event; a list of payloads each of which is read as an event is a batch; and
/// anything else is not recognized.
pub open spec fn request_read(request: Result<IngestRequest, ShapeError>, raw: Json) -> bool {
    match raw {
        Json::Array(items) => match request {
            Ok(IngestRequest::Batch(events)) => read_as(events@, items@),
            Ok(IngestRequest::Single(_)) => false,
            Err(_) => !all_read(items@),
        },
        _ => match request {
            Ok(IngestRequest::Single(event)) => discriminated(raw) == Ok::<Event, ShapeError>(
                event,
            ),
            Ok(IngestRequest::Batch(_)) => false,
            Err(_) => discriminated(raw) is Err,
        },
    }
}

impl IngestRequest {
    /// Reads the body of a request: one event, or a list of events. A list is read only
    /// where every one of its items is; `UnrecognizedShape` says that the body is
    /// neither.
    pub fn from_json(raw: Json) -> (request: Result<IngestRequest, ShapeError>)
        ensures
            request_read(request, raw),
    {
        match raw {
            Json::Array(items) => {
                let ghost all = items@;
                let mut events: Vec<Event> = Vec::new();
                for item in it: items.into_iter()
                    invariant
                        raw is Array,
                        raw->Array_0@ == all,
                        it.seq() == all,
                        events@.len() == it.index(),
                        forall|i: int|
                            0 <= i < it.index() ==> discriminated(all[i]) == Ok::<
                                Event,
                                ShapeError,
                            >(#[trigger] events@[i]),
                {
                    match discriminate(item) {
                        Ok(event) => {
                            events.push(event);
                        },
                        Err(e) => {
                            return Err(e);
                        },
                    }
                }
                Ok(IngestRequest::Batch(events))
            },
            other => match discriminate(other) {
                Ok(event) => Ok(IngestRequest::Single(event)),
                Err(e) => Err(e),
            },
        }
    }
}

} // verus!
