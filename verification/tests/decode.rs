use strife::api::gateway::data::{
    DispatchMessage, DispatchReady, GatewayMessage, PresenceData, PrivateChannelData,
    RelationshipData,
};
use strife::data::state::{PrivateChannelKind, RelationshipKind};
use strife::data::text::parse_decimal;
use strife::data::user::{Presence, User};
use strife::json::Json;

fn text(s: &str) -> Json {
    Json::Text(String::from(s))
}

fn object(members: Vec<(&str, Json)>) -> Json {
    Json::Object(members.into_iter().map(|(k, v)| (String::from(k), v)).collect())
}

fn user(id: &str, name: &str) -> Json {
    object(vec![("id", text(id)), ("username", text(name)), ("discriminator", text("0001"))])
}

fn channel(id: &str, kind: u64, last_message_id: &str, recipients: Vec<Json>) -> Json {
    object(vec![
        ("id", text(id)),
        ("type", Json::UInt(kind)),
        ("recipients", Json::Array(recipients)),
        ("last_message_id", text(last_message_id)),
    ])
}

#[test]
fn decimal_numbers_are_read_as_std_reads_them() {
    for s in ["0", "7", "+7", "0007", "65535", "65536", "18446744073709551615", "+0"] {
        assert_eq!(parse_decimal(s, u64::MAX), s.parse::<u64>().ok(), "{:?}", s);
        assert_eq!(
            parse_decimal(s, u16::MAX as u64).map(|n| n as u16),
            s.parse::<u16>().ok(),
            "{:?}",
            s
        );
    }
    for s in ["", "+", "-1", "-0", "1 ", " 1", "1_0", "0x10", "１２", "1.0", "++1", "1+", "99999999999999999999", "18446744073709551616"] {
        assert_eq!(parse_decimal(s, u64::MAX), None, "{:?}", s);
        assert_eq!(s.parse::<u64>().ok(), None, "{:?}", s);
    }
    assert_eq!(parse_decimal("65535", 65535), Some(65535));
    assert_eq!(parse_decimal("65536", 65535), None);
    assert_eq!(parse_decimal("5", 4), None);
    assert_eq!(parse_decimal("0", 0), Some(0));
}

#[test]
fn json_members_are_found_by_name() {
    let j = object(vec![("a", Json::UInt(1)), ("b", text("x")), ("a", Json::UInt(2))]);
    assert!(matches!(j.get("a"), Some(Json::UInt(1))));
    assert!(matches!(j.get("b"), Some(Json::Text(t)) if t == "x"));
    assert!(j.get("c").is_none());
    assert!(Json::Null.get("a").is_none());
    assert_eq!(j.text_at("b").as_deref(), Some("x"));
    assert_eq!(j.text_at("a"), None);
    assert_eq!(j.uint_at("a", 1), Some(1));
    assert_eq!(j.uint_at("a", 0), None);
    assert_eq!(j.optional_uint_at("c", 5), Some(None));
    assert_eq!(j.optional_uint_at("a", 5), Some(Some(1)));
    assert_eq!(j.optional_uint_at("b", 5), None);
    assert_eq!(j.optional_text_at("c"), Some(None));
    assert_eq!(j.optional_text_at("a"), None);
    assert!(j.array_at("a").is_none());
    assert!(matches!(j.into_member("b"), Some(Json::Text(t)) if t == "x"));
}

#[test]
fn user_is_read_from_text() {
    let u = User::from_text(
        r#"{"id":"80351110224678912","username":"Nelly","discriminator":"1337","avatar":"8342729096ea3675442027381ff50dfe","accent_color":16711680,"verified":true}"#,
    )
    .expect("a user");
    assert_eq!(u.id, "80351110224678912");
    assert_eq!(u.username, "Nelly");
    assert_eq!(u.discriminator, 1337);
    assert_eq!(u.accent_color, Some(16711680));
    assert_eq!(u.avatar.as_deref(), Some("8342729096ea3675442027381ff50dfe"));
    assert_eq!(u.presence, Presence::Offline);
}

#[test]
fn user_with_missing_or_wrong_members_is_refused() {
    assert!(User::from_text("not json").is_none());
    assert!(User::from_text(r#"{"username":"a","discriminator":"1"}"#).is_none());
    assert!(User::from_text(r#"{"id":"1","discriminator":"1"}"#).is_none());
    assert!(User::from_text(r#"{"id":"1","username":"a"}"#).is_none());
    assert!(User::from_text(r#"{"id":1,"username":"a","discriminator":"1"}"#).is_none());
    assert!(User::from_text(r#"{"id":"1","username":"a","discriminator":1}"#).is_none());
    assert!(User::from_text(r#"{"id":"1","username":"a","discriminator":"65536"}"#).is_none());
    assert!(User::from_text(r#"{"id":"1","username":"a","discriminator":"x"}"#).is_none());
    assert!(User::from_text(r#"{"id":"1","username":"a","discriminator":"1","avatar":5}"#).is_none());
    assert!(User::from_text(
        r#"{"id":"1","username":"a","discriminator":"1","accent_color":4294967296}"#
    )
    .is_none());
    assert!(User::from_text(
        r#"{"id":"1","username":"a","discriminator":"1","accent_color":-1}"#
    )
    .is_none());
    let min = User::from_text(r#"{"id":"1","username":"a","discriminator":"+9","avatar":null,"accent_color":null}"#)
        .expect("a user");
    assert_eq!(min.discriminator, 9);
    assert_eq!(min.avatar, None);
    assert_eq!(min.accent_color, None);
}

#[test]
fn users_are_equal_by_id() {
    let a = User::from_json(&user("1", "a")).expect("a user");
    let b = User::from_json(&user("1", "b")).expect("a user");
    let c = User::from_json(&user("2", "a")).expect("a user");
    assert!(a == b);
    assert!(a != c);
    let copy = a.clone();
    assert_eq!(copy.username, "a");
    let online = a.with_presence(Presence::Online);
    assert_eq!(online.presence, Presence::Online);
    assert_eq!(online.id, "1");
}

#[test]
fn presence_words() {
    assert_eq!(Presence::from_status("online"), Presence::Online);
    assert_eq!(Presence::from_status("idle"), Presence::Idle);
    assert_eq!(Presence::from_status("dnd"), Presence::DoNotDisturb);
    assert_eq!(Presence::from_status("offline"), Presence::Offline);
    assert_eq!(Presence::from_status("Online"), Presence::Offline);
    assert_eq!(Presence::from_status(""), Presence::Offline);
    assert_eq!(Presence::default(), Presence::Offline);
}

#[test]
fn frame_members() {
    let frame = GatewayMessage::from_json(object(vec![
        ("t", text("READY")),
        ("s", Json::UInt(3)),
        ("op", Json::UInt(0)),
        ("d", Json::Array(vec![Json::Bool(true)])),
    ]))
    .expect("a frame");
    assert_eq!(frame.op, 0);
    assert_eq!(frame.kind.as_deref(), Some("READY"));
    assert_eq!(frame.sequence, Some(3));
    assert!(matches!(frame.data, Json::Array(ref items) if items.len() == 1));

    let bare = GatewayMessage::from_json(object(vec![("op", Json::UInt(11)), ("d", Json::Null)]))
        .expect("a frame");
    assert_eq!(bare.kind, None);
    assert_eq!(bare.sequence, None);

    assert!(GatewayMessage::from_json(object(vec![("op", Json::UInt(11))])).is_none());
    assert!(GatewayMessage::from_json(object(vec![("d", Json::Null)])).is_none());
    assert!(GatewayMessage::from_json(object(vec![("op", Json::OtherNumber), ("d", Json::Null)])).is_none());
    assert!(GatewayMessage::from_json(object(vec![
        ("op", Json::UInt(1)),
        ("d", Json::Null),
        ("t", Json::UInt(1))
    ]))
    .is_none());
    assert!(GatewayMessage::from_json(object(vec![
        ("op", Json::UInt(1)),
        ("d", Json::Null),
        ("s", text("1"))
    ]))
    .is_none());
    assert!(GatewayMessage::from_json(Json::Null).is_none());
}

#[test]
fn relationship_presence_and_message_documents() {
    let r = RelationshipData::from_json(&object(vec![("user", user("5", "five")), ("type", Json::UInt(2))]))
        .expect("a relationship");
    assert_eq!(r.user.id, "5");
    assert_eq!(r.kind, 2);
    assert!(RelationshipData::from_json(&object(vec![("user", user("5", "five"))])).is_none());
    assert!(RelationshipData::from_json(&object(vec![("type", Json::UInt(2))])).is_none());
    assert!(RelationshipData::from_json(&object(vec![("user", user("5", "five")), ("type", Json::UInt(65536))])).is_none());

    let p = PresenceData::from_json(&object(vec![("user", user("5", "five")), ("status", text("idle"))]))
        .expect("a presence");
    assert_eq!(p.status, "idle");
    assert!(PresenceData::from_json(&object(vec![("user", user("5", "five"))])).is_none());

    assert!(DispatchMessage::from_json(&object(vec![
        ("id", text("1")),
        ("channel_id", text("2")),
        ("author", user("5", "five")),
        ("content", text("hi")),
    ]))
    .is_none());
}

#[test]
fn relationship_and_channel_kinds() {
    assert_eq!(RelationshipKind::from_code(0), RelationshipKind::Unrelated);
    assert_eq!(RelationshipKind::from_code(1), RelationshipKind::Friend);
    assert_eq!(RelationshipKind::from_code(2), RelationshipKind::Blocked);
    assert_eq!(RelationshipKind::from_code(3), RelationshipKind::PendingIncoming);
    assert_eq!(RelationshipKind::from_code(4), RelationshipKind::PendingOutgoing);
    assert_eq!(RelationshipKind::from_code(5), RelationshipKind::Implicit);
    assert_eq!(RelationshipKind::from_code(6), RelationshipKind::Unrelated);
    assert_eq!(PrivateChannelKind::from_code(3), PrivateChannelKind::Group);
    assert_eq!(PrivateChannelKind::from_code(1), PrivateChannelKind::DirectMessage);
    assert_eq!(PrivateChannelKind::from_code(0), PrivateChannelKind::DirectMessage);
}

#[test]
fn channel_timestamp_comes_from_the_last_message_id() {
    let c = PrivateChannelData::from_json(&channel(
        "9",
        3,
        "175928847299117063",
        vec![user("1", "a"), user("2", "b")],
    ))
    .expect("a channel");
    let kept = c.to_channel();
    assert_eq!(kept.last_message_timestamp, 1462015105796);
    assert_eq!(kept.kind, PrivateChannelKind::Group);
    assert_eq!(kept.recipients, vec![String::from("1"), String::from("2")]);
    assert_eq!(kept.id, "9");

    let none = PrivateChannelData::from_json(&channel("9", 1, "none", vec![])).expect("a channel");
    assert_eq!(none.to_channel().last_message_timestamp, 1420070400000);
    let max = PrivateChannelData::from_json(&channel("9", 1, "18446744073709551615", vec![]))
        .expect("a channel");
    assert_eq!(max.to_channel().last_message_timestamp, (u64::MAX >> 22) + 1420070400000);
    assert!(PrivateChannelData::from_json(&channel("9", 1, "1", vec![Json::Null])).is_none());
}

#[test]
fn ready_becomes_the_first_state() {
    let ready = DispatchReady::from_json(&object(vec![
        ("user", user("1", "me")),
        (
            "relationships",
            Json::Array(vec![
                object(vec![("user", user("2", "old two")), ("type", Json::UInt(1))]),
                object(vec![("user", user("3", "three")), ("type", Json::UInt(9))]),
                object(vec![("user", user("2", "new two")), ("type", Json::UInt(2))]),
            ]),
        ),
        (
            "private_channels",
            Json::Array(vec![
                channel("a", 1, "4194304", vec![user("2", "two")]),
                channel("b", 3, "12582912", vec![]),
                channel("c", 1, "x", vec![]),
                channel("d", 1, "12582913", vec![]),
                channel("e", 1, "8388608", vec![]),
            ]),
        ),
        (
            "presences",
            Json::Array(vec![
                object(vec![("user", user("2", "two")), ("status", text("online"))]),
                object(vec![("user", user("7", "seven")), ("status", text("online"))]),
                object(vec![("user", user("3", "three")), ("status", text("dnd"))]),
                object(vec![("user", user("2", "two")), ("status", text("idle"))]),
                object(vec![("user", user("1", "me")), ("status", text("nonsense"))]),
            ]),
        ),
        ("resume_gateway_url", text("wss://x")),
        ("session_id", text("abc")),
    ]))
    .expect("a ready document");
    assert_eq!(ready.session_id, "abc");
    assert_eq!(ready.resume_gateway_url, "wss://x");

    let state = ready.into_state();
    assert_eq!(state.user_id, "1");

    assert_eq!(state.relationships.len(), 3);
    assert_eq!(state.relationships[0].id, "2");
    assert_eq!(state.relationships[0].kind, RelationshipKind::Friend);
    assert_eq!(state.relationships[1].kind, RelationshipKind::Unrelated);
    assert_eq!(state.relationships[2].kind, RelationshipKind::Blocked);

    let order: Vec<&str> = state.private_channels.iter().map(|c| c.id.as_str()).collect();
    assert_eq!(order, vec!["b", "d", "e", "a", "c"]);
    let stamps: Vec<u64> = state.private_channels.iter().map(|c| c.last_message_timestamp).collect();
    assert_eq!(
        stamps,
        vec![1420070400003, 1420070400003, 1420070400002, 1420070400001, 1420070400000]
    );
    assert_eq!(state.private_channels[3].recipients, vec![String::from("2")]);

    assert_eq!(state.user_cache.len(), 3);
    let two = state.user_cache.get("2").expect("user 2");
    assert_eq!(two.username, "new two");
    assert_eq!(two.presence, Presence::Idle);
    assert_eq!(state.user_cache.get("3").expect("user 3").presence, Presence::DoNotDisturb);
    assert_eq!(state.user_cache.get("1").expect("user 1").presence, Presence::Offline);
    assert_eq!(state.user_cache.get("1").expect("user 1").username, "me");
    assert!(state.user_cache.get("7").is_none());
    assert_eq!(state.message_cache.len(), 0);
}

#[test]
fn ready_needs_all_its_members() {
    let full = vec![
        ("user", user("1", "me")),
        ("relationships", Json::Array(vec![])),
        ("private_channels", Json::Array(vec![])),
        ("presences", Json::Array(vec![])),
        ("resume_gateway_url", text("wss://x")),
        ("session_id", text("abc")),
    ];
    for skip in 0..full.len() {
        let members: Vec<(&str, Json)> = full
            .iter()
            .enumerate()
            .filter(|(i, _)| *i != skip)
            .map(|(_, (k, _))| {
                (
                    *k,
                    match *k {
                        "user" => user("1", "me"),
                        "resume_gateway_url" => text("wss://x"),
                        "session_id" => text("abc"),
                        _ => Json::Array(vec![]),
                    },
                )
            })
            .collect();
        assert!(DispatchReady::from_json(&object(members)).is_none(), "without member {}", skip);
    }
    assert!(DispatchReady::from_json(&object(full)).is_some());
    assert!(DispatchReady::from_json(&Json::Null).is_none());
}
