//! The event message delivered to connected clients.

use vstd::prelude::*;

verus! {

#[verifier::external_type_specification]
#[verifier::external_body]
pub struct ExValue(serde_json::Value);

/// Relies on serde_json::Value::clone, a derived Clone: the copy it returns
/// is equal to the original value.
pub assume_specification[ <serde_json::Value as Clone>::clone ](
    v: &serde_json::Value,
) -> (r: serde_json::Value)
    ensures
        r == *v,
;

/// An immutable event notification. It is cloned, never mutated, on every
/// delivery; duplicates are permitted and carry no identity beyond content.
#[derive(Debug)]
pub struct WebSocketMessage {
    /// Tag telling the client what kind of event this is.
    pub message_type: String,
    /// Opaque structured payload; this crate never looks inside it.
    pub data: serde_json::Value,
    /// Creation time, in milliseconds since the Unix epoch.
    pub timestamp_millis: i64,
}

impl Clone for WebSocketMessage {
    fn clone(&self) -> (r: Self)
        ensures
            r == *self,
    {
        WebSocketMessage {
            message_type: self.message_type.clone(),
            data: self.data.clone(),
            timestamp_millis: self.timestamp_millis,
        }
    }
}

} // verus!
