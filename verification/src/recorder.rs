//! The event recorder: one Kubernetes `Event` object per reconciliation
//! step, attributed to the operator and attached to the custom resource.

use vstd::prelude::*;
use vstd::string::StringExecFns;

use crate::resource::{object_reference, spec_name_any, ApiResource, ObjectMeta, ObjectReference};
use vstd::string::StringSliceAdditionalSpecFns;

use crate::text::{ascii_chars_of, ascii_lower_bytes, dec_digits, dec_string, str_bytes};

verus! {

/// How severe an event is; Kubernetes knows these two kinds.
#[derive(PartialEq, Eq, Clone, Debug)]
pub enum Level {
    Warning,
    Normal,
}

/// What a failed parse of a level reports.
#[derive(Clone, Debug)]
pub enum Error {
    Parse(String),
}

impl Level {
    /// The level's name as Kubernetes writes it.
    pub fn as_str(&self) -> (r: &'static str)
        ensures
            self is Warning ==> r@ == "Warning"@,
            self is Normal ==> r@ == "Normal"@,
    {
        match self {
            Level::Warning => "Warning",
            Level::Normal => "Normal",
        }
    }

    /// Reads a level, ignoring ASCII case: `warning` or `normal` in any
    /// casing; everything else is rejected.
    pub fn parse(s: &str) -> (r: Result<Level, Error>)
        ensures
            r is Ok <==> ascii_lower_bytes(s.spec_bytes()) == "warning".spec_bytes()
                || ascii_lower_bytes(s.spec_bytes()) == "normal".spec_bytes(),
            (r matches Ok(l) ==> (l is Warning <==> ascii_lower_bytes(s.spec_bytes())
                == "warning".spec_bytes())),
    {
        let lowered = crate::text::ascii_lower(str_bytes(s));
        if crate::text::bytes_eq(lowered.as_slice(), str_bytes("warning").as_slice()) {
            Ok(Level::Warning)
        } else if crate::text::bytes_eq(lowered.as_slice(), str_bytes("normal").as_slice()) {
            Ok(Level::Normal)
        } else {
            Err(Error::Parse(s.to_owned()))
        }
    }
}

/// A Kubernetes `Event`, as the operator records it.
#[derive(Clone, Debug)]
pub struct Event {
    pub namespace: Option<String>,
    pub name: String,
    pub kind: Level,
    pub action: String,
    pub count: u32,
    pub message: String,
    pub reason: String,
    pub reporting_component: String,
    pub reporting_instance: String,
    pub involved_object: ObjectReference,
    pub source_component: String,
    pub source_host: Option<String>,
    /// Unix seconds at which the event was recorded.
    pub timestamp: u64,
}

/// The name of an event: `<resource>-<action-lowercase>-<unix-seconds>`,
/// so repeated actions on one resource stay distinct.
pub open spec fn spec_event_name(name: Seq<char>, action_lower: Seq<char>, ts: u64) -> Seq<char> {
    name + "-"@ + action_lower + "-"@ + ascii_chars_of(dec_digits(ts as nat))
}

/// Builds the event recording one reconciliation step on a resource.
/// `action` names the step; `action_lower` is its lower-case form, used in
/// the event's name.
pub fn new(
    api: &ApiResource,
    meta: &ObjectMeta,
    kind: Level,
    action: &str,
    action_lower: &str,
    message: &str,
    ts: u64,
    host: Option<String>,
) -> (e: Event)
    ensures
        e.namespace == meta.namespace,
        e.name@ == spec_event_name(spec_name_any(*meta), action_lower@, ts),
        e.kind == kind,
        e.action@ == action@,
        e.reason@ == action@,
        e.count == 1,
        e.message@ == message@,
        e.reporting_component@ == "clever-operator"@,
        e.source_component@ == "clever-operator"@,
        e.source_host == host,
        e.involved_object.name@ == spec_name_any(*meta),
        e.involved_object.namespace == meta.namespace,
        e.involved_object.uid == meta.uid,
        e.involved_object.kind@ == api.kind@,
        e.timestamp == ts,
{
    let name = crate::resource::name_any(meta)
        .concat("-")
        .concat(action_lower)
        .concat("-")
        .concat(dec_string(ts).as_str());
    Event {
        namespace: meta.namespace.clone(),
        name,
        kind,
        action: action.to_owned(),
        count: 1,
        message: message.to_owned(),
        reason: action.to_owned(),
        reporting_component: String::from_str("clever-operator"),
        reporting_instance: String::from_str("clever-operator/0.1.0"),
        involved_object: object_reference(api, meta),
        source_component: String::from_str("clever-operator"),
        source_host: host,
        timestamp: ts,
    }
}

} // verus!
