use serde_json::Value;
use strife::api::gateway::payloads::{
    heartbeat_payload, heartbeat_value, identify_payload, identify_value, resume_payload,
    resume_value,
};
use strife::json::Payload;

fn object(members: Vec<(&str, Value)>) -> Value {
    let mut map = serde_json::Map::new();
    for (name, value) in members {
        map.insert(name.to_string(), value);
    }
    Value::Object(map)
}

fn reparsed(text: &str) -> Value {
    serde_json::from_str::<Value>(text).expect("the payload is JSON")
}

#[test]
fn heartbeat_with_sequence_is_exact() {
    assert_eq!(heartbeat_payload(Some(5)), r#"{"d":5,"op":1}"#);
    assert_eq!(heartbeat_payload(Some(u32::MAX)), r#"{"d":4294967295,"op":1}"#);
}

#[test]
fn heartbeat_without_sequence_carries_null() {
    assert_eq!(heartbeat_payload(None), r#"{"d":null,"op":1}"#);
    assert_eq!(
        reparsed(&heartbeat_payload(None)),
        object(vec![("op", Value::from(1u64)), ("d", Value::Null)])
    );
}

#[test]
fn identify_names_the_client() {
    let expected = object(vec![
        ("op", Value::from(2u64)),
        (
            "d",
            object(vec![
                ("token", Value::from("secret token")),
                (
                    "properties",
                    object(vec![
                        ("capabilities", Value::from(1021u64)),
                        ("os", Value::from("Windows")),
                        ("browser", Value::from("Chrome")),
                        ("device", Value::from("strife")),
                    ]),
                ),
            ]),
        ),
    ]);
    assert_eq!(reparsed(&identify_payload("secret token")), expected);
    assert_eq!(
        identify_payload("t"),
        r#"{"d":{"properties":{"browser":"Chrome","capabilities":1021,"device":"strife","os":"Windows"},"token":"t"},"op":2}"#
    );
}

#[test]
fn identify_escapes_the_token() {
    let token = "a\"b\\c\nd\u{1F600}";
    let text = identify_payload(token);
    assert_eq!(reparsed(&text)["d"]["token"], Value::from(token));
    assert!(text.contains(r#""token":"a\"b\\c\nd"#));
}

#[test]
fn resume_carries_session_and_sequence() {
    let expected = object(vec![
        ("op", Value::from(6u64)),
        (
            "d",
            object(vec![
                ("token", Value::from("tok")),
                ("session_id", Value::from("abc")),
                ("seq", Value::from(42u64)),
            ]),
        ),
    ]);
    assert_eq!(reparsed(&resume_payload("tok", "abc", 42)), expected);
    assert_eq!(
        resume_payload("tok", "abc", 42),
        r#"{"d":{"seq":42,"session_id":"abc","token":"tok"},"op":6}"#
    );
    assert_eq!(
        resume_payload("tok", "abc", 0),
        r#"{"d":{"seq":0,"session_id":"abc","token":"tok"},"op":6}"#
    );
}

#[test]
fn heartbeat_document_has_two_members() {
    match heartbeat_value(Some(7)) {
        Payload::Object(members) => {
            assert_eq!(members.len(), 2);
            assert_eq!(members[0].0, "op");
            assert!(matches!(members[0].1, Payload::UInt(1)));
            assert_eq!(members[1].0, "d");
            assert!(matches!(members[1].1, Payload::UInt(7)));
        }
        other => panic!("not an object: {:?}", other),
    }
    match heartbeat_value(None) {
        Payload::Object(members) => assert!(matches!(members[1].1, Payload::Null)),
        other => panic!("not an object: {:?}", other),
    }
}

#[test]
fn identify_document_holds_the_token_first() {
    match identify_value("tok") {
        Payload::Object(members) => {
            assert!(matches!(members[0].1, Payload::UInt(2)));
            match &members[1].1 {
                Payload::Object(d) => {
                    assert_eq!(d[0].0, "token");
                    assert!(matches!(&d[0].1, Payload::Text(t) if t == "tok"));
                    assert_eq!(d[1].0, "properties");
                    match &d[1].1 {
                        Payload::Object(p) => {
                            assert_eq!(p.len(), 4);
                            assert!(matches!(p[0].1, Payload::UInt(1021)));
                        }
                        other => panic!("not an object: {:?}", other),
                    }
                }
                other => panic!("not an object: {:?}", other),
            }
        }
        other => panic!("not an object: {:?}", other),
    }
}

#[test]
fn resume_document_holds_three_members() {
    match resume_value("tok", "abc", 9) {
        Payload::Object(members) => {
            assert!(matches!(members[0].1, Payload::UInt(6)));
            match &members[1].1 {
                Payload::Object(d) => {
                    assert_eq!(d.len(), 3);
                    assert!(matches!(&d[1].1, Payload::Text(t) if t == "abc"));
                    assert!(matches!(d[2].1, Payload::UInt(9)));
                }
                other => panic!("not an object: {:?}", other),
            }
        }
        other => panic!("not an object: {:?}", other),
    }
}
