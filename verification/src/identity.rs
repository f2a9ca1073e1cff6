//! The identifier of an event: the one that the payload supplied, or a fresh one.
//!
//! The identifier, once assigned, is the key under which the event is published and the
//! value by which the answer refers to it.

use crate::models::Event;
use vstd::prelude::*;

verus! {

/// The number of characters of a fresh identifier.
pub const FRESH_ID_LENGTH: usize = 36;

/// The identifier that the payload supplied, empty or not.
pub open spec fn supplied_id(event: Event) -> Option<String> {
    match event {
        Event::Track(e) => e.base.eventId,
        Event::Error(e) => e.base.base.eventId,
        Event::WebVitals(e) => e.base.base.eventId,
        Event::Custom(e) => e.eventId,
        Event::OutgoingLink(e) => Some(e.eventId),
    }
}

/// `supplied`, where it is there and not empty.
pub open spec fn usable(supplied: Option<String>) -> Option<String> {
    match supplied {
        Some(id) => if id@.len() > 0 {
            Some(id)
        } else {
            None
        },
        None => None,
    }
}

/// The identifier of an event that supplied `supplied`, where `fresh` is at hand: the
/// supplied one if it is usable, and `fresh` otherwise.
pub open spec fn resolved_id(supplied: Option<String>, fresh: String) -> String {
    match usable(supplied) {
        Some(id) => id,
        None => fresh,
    }
}

/// Whether `id` may be assigned where `supplied` was supplied: it is the supplied one
/// where that is usable, and otherwise has the length of a fresh identifier.
pub open spec fn assignable(supplied: Option<String>, id: String) -> bool {
    match usable(supplied) {
        Some(own) => id == own,
        None => id@.len() == FRESH_ID_LENGTH,
    }
}

/// A copy of an identifier that may be absent.
fn copy_of(text: &Option<String>) -> (copy: Option<String>)
    ensures
        copy == *text,
{
    match text {
        Some(t) => Some(t.clone()),
        None => None,
    }
}

/// The identifier that the payload supplied, empty or not.
pub fn get_event_id(event: &Event) -> (id: Option<String>)
    ensures
        id == supplied_id(*event),
{
    match event {
        Event::Track(e) => copy_of(&e.base.eventId),
        Event::Error(e) => copy_of(&e.base.base.eventId),
        Event::WebVitals(e) => copy_of(&e.base.base.eventId),
        Event::Custom(e) => copy_of(&e.eventId),
        Event::OutgoingLink(e) => Some(e.eventId.clone()),
    }
}

/// The supplied identifier if it is usable, and `fresh` otherwise.
pub fn resolve_event_id(supplied: Option<String>, fresh: String) -> (id: String)
    ensures
        id == resolved_id(supplied, fresh),
{
    match supplied {
        Some(id) => if id.as_str().is_empty() {
            fresh
        } else {
            id
        },
        None => fresh,
    }
}

/// `uuid::Uuid::new_v4`, written out by `to_string`: a random identifier in the
/// hyphenated form, which has 36 characters whatever the random bits are. Nothing is
/// claimed of the characters. The crate stops the program where the system has no
/// random bytes to give.
#[verifier::external_body]
fn fresh_id() -> (id: String)
    ensures
        id@.len() == FRESH_ID_LENGTH,
{
    uuid::Uuid::new_v4().to_string()
}

/// The supplied identifier if it is usable, and otherwise one made for the occasion.
pub fn resolve_or_generate(supplied: Option<String>) -> (id: String)
    ensures
        assignable(supplied, id),
{
    match supplied {
        Some(own) => if own.as_str().is_empty() {
            fresh_id()
        } else {
            own
        },
        None => fresh_id(),
    }
}

/// The identifier under which `event` is published and answered.
pub fn assign_event_id(event: &Event) -> (id: String)
    ensures
        assignable(supplied_id(*event), id),
{
    resolve_or_generate(get_event_id(event))
}

/// What `resolve_event_id` returns may be assigned, whenever the fresh identifier has
/// the length of one; and it is the fresh identifier exactly where none was supplied or
/// the supplied one is empty.
pub proof fn lemma_resolved_id_is_assignable(supplied: Option<String>, fresh: String)
    requires
        fresh@.len() == FRESH_ID_LENGTH,
    ensures
        assignable(supplied, resolved_id(supplied, fresh)),
        resolved_id(supplied, fresh)@.len() > 0,
        supplied is Some && supplied->0@.len() > 0 ==> resolved_id(supplied, fresh) == supplied->0,
        supplied is None || supplied->0@.len() == 0 ==> resolved_id(supplied, fresh) == fresh,
{
}

} // verus!
