use strife::json::{Json, Payload};

fn member<'a>(j: &'a Json, key: &str) -> &'a Json {
    j.get(key).expect("the member")
}

#[test]
fn text_is_read_into_a_document() {
    let j = Json::from_text(
        r#" {"a":[1,-2,3.5,true,false,null,"x\né",{"b":{}},[],18446744073709551615,18446744073709551616],"z":0} "#,
    )
    .expect("a document");
    match member(&j, "a") {
        Json::Array(items) => {
            assert_eq!(items.len(), 11);
            assert!(matches!(items[0], Json::UInt(1)));
            assert!(matches!(items[1], Json::OtherNumber));
            assert!(matches!(items[2], Json::OtherNumber));
            assert!(matches!(items[3], Json::Bool(true)));
            assert!(matches!(items[4], Json::Bool(false)));
            assert!(matches!(items[5], Json::Null));
            assert!(matches!(&items[6], Json::Text(t) if t == "x\n\u{e9}"));
            assert!(matches!(member(&items[7], "b"), Json::Object(m) if m.is_empty()));
            assert!(matches!(&items[8], Json::Array(a) if a.is_empty()));
            assert!(matches!(items[9], Json::UInt(u64::MAX)));
            assert!(matches!(items[10], Json::OtherNumber));
        }
        other => panic!("not an array: {:?}", other),
    }
    assert!(matches!(member(&j, "z"), Json::UInt(0)));
}

#[test]
fn scalars_are_documents() {
    assert!(matches!(Json::from_text("null"), Some(Json::Null)));
    assert!(matches!(Json::from_text("7"), Some(Json::UInt(7))));
    assert!(matches!(Json::from_text("\"7\""), Some(Json::Text(t)) if t == "7"));
    assert!(matches!(Json::from_text("[]"), Some(Json::Array(a)) if a.is_empty()));
}

#[test]
fn text_that_is_no_document_is_refused() {
    for text in ["", " ", "{", "{\"a\":}", "[1,]", "nul", "1 2", "{\"a\":1}x", "'a'", "{a:1}"] {
        assert!(Json::from_text(text).is_none(), "{:?}", text);
    }
}

#[test]
fn a_name_written_twice_keeps_the_last_value() {
    let j = Json::from_text(r#"{"b":1,"a":2,"b":3}"#).expect("a document");
    assert!(matches!(member(&j, "b"), Json::UInt(3)));
    match &j {
        Json::Object(members) => {
            assert_eq!(members.len(), 2);
            assert_eq!(members[0].0, "a");
            assert_eq!(members[1].0, "b");
        }
        other => panic!("not an object: {:?}", other),
    }
}

#[test]
fn documents_are_written_as_compact_text() {
    assert_eq!(Payload::Null.to_text(), "null");
    assert_eq!(Payload::UInt(u64::MAX).to_text(), "18446744073709551615");
    assert_eq!(Payload::Text(String::from("a\"b")).to_text(), r#""a\"b""#);
    assert_eq!(Payload::Object(vec![]).to_text(), "{}");
    let nested = Payload::Object(vec![
        (String::from("z"), Payload::UInt(1)),
        (String::from("a"), Payload::Object(vec![(String::from("k"), Payload::Null)])),
        (String::from("z"), Payload::Text(String::from("last"))),
    ]);
    assert_eq!(nested.to_text(), r#"{"a":{"k":null},"z":"last"}"#);
}

#[test]
fn written_documents_read_back() {
    let written = Payload::Object(vec![
        (String::from("op"), Payload::UInt(6)),
        (String::from("d"), Payload::Text(String::from("tab\there"))),
    ])
    .to_text();
    let read = Json::from_text(&written).expect("a document");
    assert_eq!(read.uint_at("op", 10), Some(6));
    assert_eq!(read.text_at("d").as_deref(), Some("tab\there"));
}
