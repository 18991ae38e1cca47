//! The three documents that the client sends: heartbeat, identify and resume.

use crate::json::{lemma_pairs_value, render, rendered, JsonValue, Payload};
use vstd::prelude::*;
use vstd::string::StringExecFns;

verus! {

/// The heartbeat document: operation 1 with the last sequence number seen, or with
/// `null` where none was.
pub open spec fn heartbeat_document(sequence: Option<u32>) -> JsonValue {
    JsonValue::Object(
        seq![
            ("op"@, JsonValue::UInt(1)),
            (
                "d"@,
                match sequence {
                    Some(s) => JsonValue::UInt(s as u64),
                    None => JsonValue::Null,
                },
            ),
        ],
    )
}

/// What the client says of itself when it identifies.
pub open spec fn client_properties() -> JsonValue {
    JsonValue::Object(
        seq![
            ("capabilities"@, JsonValue::UInt(1021)),
            ("os"@, JsonValue::Text("Windows"@)),
            ("browser"@, JsonValue::Text("Chrome"@)),
            ("device"@, JsonValue::Text("strife"@)),
        ],
    )
}

/// The identify document: operation 2 with the credential and the client's
/// properties.
pub open spec fn identify_document(token: Seq<char>) -> JsonValue {
    JsonValue::Object(
        seq![
            ("op"@, JsonValue::UInt(2)),
            (
                "d"@,
                JsonValue::Object(
                    seq![("token"@, JsonValue::Text(token)), ("properties"@, client_properties())],
                ),
            ),
        ],
    )
}

/// The resume document: operation 6 with the credential, the session's id and the
/// last sequence number seen.
pub open spec fn resume_document(token: Seq<char>, session_id: Seq<char>, sequence: u32) -> JsonValue {
    JsonValue::Object(
        seq![
            ("op"@, JsonValue::UInt(6)),
            (
                "d"@,
                JsonValue::Object(
                    seq![
                        ("token"@, JsonValue::Text(token)),
                        ("session_id"@, JsonValue::Text(session_id)),
                        ("seq"@, JsonValue::UInt(sequence as u64)),
                    ],
                ),
            ),
        ],
    )
}

fn text(s: &str) -> (payload: Payload)
    ensures
        payload@ == JsonValue::Text(s@),
{
    Payload::Text(String::from_str(s))
}

fn object(members: Vec<(String, Payload)>) -> (payload: Payload)
    ensures
        payload@ is Object,
        payload@->Object_0.len() == members@.len(),
        forall|k: int|
            0 <= k < members@.len() ==> #[trigger] payload@->Object_0[k] == (
                members@[k].0@,
                members@[k].1@,
            ),
{
    proof {
        lemma_pairs_value(members, members@.len());
    }
    Payload::Object(members)
}

/// Builds the heartbeat document.
pub fn heartbeat_value(sequence: Option<u32>) -> (payload: Payload)
    ensures
        payload@ == heartbeat_document(sequence),
{
    let d = match sequence {
        Some(s) => Payload::UInt(s as u64),
        None => Payload::Null,
    };
    let mut members: Vec<(String, Payload)> = Vec::new();
    members.push((String::from_str("op"), Payload::UInt(1)));
    members.push((String::from_str("d"), d));
    let payload = object(members);
    assert(payload@->Object_0 =~= heartbeat_document(sequence)->Object_0);
    payload
}

/// Builds the identify document.
pub fn identify_value(token: &str) -> (payload: Payload)
    ensures
        payload@ == identify_document(token@),
{
    let mut properties: Vec<(String, Payload)> = Vec::new();
    properties.push((String::from_str("capabilities"), Payload::UInt(1021)));
    properties.push((String::from_str("os"), text("Windows")));
    properties.push((String::from_str("browser"), text("Chrome")));
    properties.push((String::from_str("device"), text("strife")));
    let properties = object(properties);
    assert(properties@->Object_0 =~= client_properties()->Object_0);
    let mut d: Vec<(String, Payload)> = Vec::new();
    d.push((String::from_str("token"), text(token)));
    d.push((String::from_str("properties"), properties));
    let d = object(d);
    assert(d@->Object_0 =~= identify_document(token@)->Object_0[1].1->Object_0);
    let mut members: Vec<(String, Payload)> = Vec::new();
    members.push((String::from_str("op"), Payload::UInt(2)));
    members.push((String::from_str("d"), d));
    let payload = object(members);
    assert(payload@->Object_0 =~= identify_document(token@)->Object_0);
    payload
}

/// Builds the resume document.
pub fn resume_value(token: &str, session_id: &str, sequence: u32) -> (payload: Payload)
    ensures
        payload@ == resume_document(token@, session_id@, sequence),
{
    let mut d: Vec<(String, Payload)> = Vec::new();
    d.push((String::from_str("token"), text(token)));
    d.push((String::from_str("session_id"), text(session_id)));
    d.push((String::from_str("seq"), Payload::UInt(sequence as u64)));
    let d = object(d);
    assert(d@->Object_0 =~= resume_document(token@, session_id@, sequence)->Object_0[1].1->Object_0);
    let mut members: Vec<(String, Payload)> = Vec::new();
    members.push((String::from_str("op"), Payload::UInt(6)));
    members.push((String::from_str("d"), d));
    let payload = object(members);
    assert(payload@->Object_0 =~= resume_document(token@, session_id@, sequence)->Object_0);
    payload
}

/// The heartbeat frame as text.
pub fn heartbeat_payload(sequence: Option<u32>) -> (frame: String)
    ensures
        frame@ == rendered(heartbeat_document(sequence)),
{
    render(&heartbeat_value(sequence))
}

/// The identify frame as text.
pub fn identify_payload(token: &str) -> (frame: String)
    ensures
        frame@ == rendered(identify_document(token@)),
{
    render(&identify_value(token))
}

/// The resume frame as text.
pub fn resume_payload(token: &str, session_id: &str, sequence: u32) -> (frame: String)
    ensures
        frame@ == rendered(resume_document(token@, session_id@, sequence)),
{
    render(&resume_value(token, session_id, sequence))
}

} // verus!
