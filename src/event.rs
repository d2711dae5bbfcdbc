//! The kind of an invocation, read from its JSON event.
use vstd::prelude::*;

verus! {

/// What the invocation was triggered for.
#[derive(Clone, Copy, Debug, PartialEq, Eq, Structural)]
pub enum EventKind {
    /// End of the trading day: every baseline is refreshed.
    Close,
    /// Any other invocation.
    Regular,
}

/// The event kind named by an event's `event_type` text.
pub open spec fn event_kind_of(event_type: Seq<char>) -> EventKind {
    if event_type == "close"@ {
        EventKind::Close
    } else {
        EventKind::Regular
    }
}

/// Reads an event's `event_type` text: "close" is a close event, any other
/// text a regular one.
pub fn event_kind(event_type: &str) -> (r: EventKind)
    ensures
        r == event_kind_of(event_type@),
{
    let given = event_type.to_owned();
    let close = "close".to_owned();
    if given == close {
        EventKind::Close
    } else {
        EventKind::Regular
    }
}

#[verifier::external_type_specification]
#[verifier::external_body]
pub struct ExValue(serde_json::Value);

/// The text of a JSON value where it is a string, as `Value::as_str` gives it.
pub uninterp spec fn string_value_of(v: serde_json::Value) -> Option<Seq<char>>;

/// The `event_type` member of a JSON value where it is an object that has
/// one, as `Value::get` gives it.
pub uninterp spec fn event_type_member_of(payload: serde_json::Value) -> Option<serde_json::Value>;

/// Relies on `serde_json::Value::as_str`: the text of a JSON string value,
/// `None` for any other value; it depends on the value alone.
pub assume_specification[ serde_json::Value::as_str ](v: &serde_json::Value) -> (r: Option<&str>)
    ensures
        match r {
            Some(t) => string_value_of(*v) == Some(t@),
            None => string_value_of(*v) == None::<Seq<char>>,
        },
;

/// Relies on `serde_json::Value::get` with a string key: the `event_type`
/// member of a JSON object, `None` where there is none or the value is not
/// an object; it depends on the value alone.
#[verifier::external_body]
fn event_type_member(payload: &serde_json::Value) -> (r: Option<&serde_json::Value>)
    ensures
        match r {
            Some(m) => event_type_member_of(*payload) == Some(*m),
            None => event_type_member_of(*payload) == None::<serde_json::Value>,
        },
{
    payload.get("event_type")
}

/// The event kind of a payload, from its `event_type` member: a close event
/// only where that member is the string "close".
pub open spec fn payload_event_kind(payload: serde_json::Value) -> EventKind {
    match event_type_member_of(payload) {
        Some(m) => match string_value_of(m) {
            Some(t) => event_kind_of(t),
            None => EventKind::Regular,
        },
        None => EventKind::Regular,
    }
}

/// The event kind of an event's optional `event_type` text: a close event
/// only where the text is "close".
pub fn event_kind_of_field(field: Option<&str>) -> (r: EventKind)
    ensures
        r == (match field {
            Some(t) => event_kind_of(t@),
            None => EventKind::Regular,
        }),
{
    match field {
        Some(t) => event_kind(t),
        None => EventKind::Regular,
    }
}

/// The event kind of an invocation payload, read from its `event_type`
/// member where that member is a string.
pub fn event_kind_of_payload(payload: &serde_json::Value) -> (r: EventKind)
    ensures
        r == payload_event_kind(*payload),
{
    let field = match event_type_member(payload) {
        Some(v) => v.as_str(),
        None => None,
    };
    event_kind_of_field(field)
}

} // verus!
