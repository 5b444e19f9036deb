//! Notifications published to clients when the read model changes.

use vstd::prelude::*;
use crate::event::Domain;
use crate::group::event::Event;

verus! {

/// A JSON value, as `serde_json` holds it.
#[verifier::external_type_specification]
#[verifier::external_body]
pub struct ExJsonValue(serde_json::Value);

/// A notification: the user it concerns, what happened, the domain it
/// happened in, and the data that changed.
#[derive(Debug)]
pub struct PubMessage {
    pub user_id: Option<String>,
    pub event_type: String,
    pub topic: String,
    pub data: serde_json::Value,
}

impl PubMessage {
    /// The notification that a group was created for `user_id`, carrying the
    /// group document `data`: topic `group`, type `created`.
    pub fn group_created(user_id: String, data: serde_json::Value) -> (r: PubMessage)
        ensures
            r.user_id matches Some(u) && u@ == user_id@,
            r.event_type@ == Event::Created.name(),
            r.topic@ == Domain::Group.name(),
            r.data == data,
    {
        PubMessage {
            user_id: Some(user_id),
            event_type: String::from_str(Event::Created.as_str()),
            topic: String::from_str(Domain::Group.as_str()),
            data,
        }
    }
}

} // verus!
