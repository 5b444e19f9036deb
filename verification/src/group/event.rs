//! Events of the group domain.

use vstd::prelude::*;
use crate::text::same_text;

verus! {

/// What can happen to a group.
#[derive(Debug, Clone, Copy, PartialEq, Eq, Structural)]
pub enum Event {
    Created,
}

impl Event {
    /// The event's type name in kebab case.
    pub open spec fn name(self) -> Seq<char> {
        match self {
            Event::Created => "created"@,
        }
    }

    /// The event's type name in kebab case, as recorded in the event store.
    pub fn as_str(&self) -> (r: &'static str)
        ensures
            r@ == self.name(),
    {
        match self {
            Event::Created => "created",
        }
    }

    /// The event whose type name is `s`, if there is one.
    pub fn from_name(s: &str) -> (r: Option<Event>)
        ensures
            r == (if s@ == Event::Created.name() { Some(Event::Created) } else { None::<Event> }),
    {
        if same_text(s, "created") {
            Some(Event::Created)
        } else {
            None
        }
    }
}

/// `strum::ParseError::VariantNotFound` as text: "Matching variant not found".
#[verifier::external_body]
fn variant_not_found_text() -> (r: String)
    ensures
        r@ == "Matching variant not found"@,
{
    strum::ParseError::VariantNotFound.to_string()
}

impl Event {
    /// Reads an event type name: the event it names, or the error that no
    /// event has that name.
    pub fn parse(s: &str) -> (r: Result<Event, String>)
        ensures
            match r {
                Ok(e) => s@ == e.name(),
                Err(m) => s@ != Event::Created.name() && m@ == "Matching variant not found"@,
            },
    {
        match Event::from_name(s) {
            Some(e) => Ok(e),
            None => Err(variant_not_found_text()),
        }
    }
}

/// An event's type name read back gives the event.
pub proof fn lemma_event_name_round_trip(e: Event)
    ensures
        (if e.name() == Event::Created.name() { Some(Event::Created) } else { None::<Event> }) == Some(e),
{
}

/// The data recorded when a user creates a group.
#[derive(Debug, Clone, PartialEq, Eq)]
pub struct Created {
    pub user_id: String,
    pub name: String,
}

} // verus!
