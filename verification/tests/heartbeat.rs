use strife::api::gateway::heartbeat::{HeartbeatStep, HeartbeatTask, WARM_UP_TICKS};
use strife::api::gateway::{Gateway, GatewayAction, Incoming};

fn ready_text() -> String {
    let mut text = String::from(r#"{"op":0,"t":"READY","s":1,"d":{"#);
    text.push_str(r#""user":{"id":"1","username":"me","discriminator":"0042"},"#);
    text.push_str(r#""relationships":[],"private_channels":[],"presences":[],"#);
    text.push_str(r#""resume_gateway_url":"wss://x","session_id":"abc"}}"#);
    text
}

fn started() -> (Gateway, HeartbeatTask) {
    let (mut gateway, _) = Gateway::new(String::from("tok"));
    let actions =
        gateway.receive(Incoming::Text(String::from(r#"{"op":10,"d":{"heartbeat_interval":50}}"#)));
    let task = match actions[0] {
        GatewayAction::StartHeartbeat(50, number) => HeartbeatTask::new(number),
        ref other => panic!("no heartbeat: {:?}", other),
    };
    gateway.receive(Incoming::Text(ready_text()));
    (gateway, task)
}

#[test]
fn first_heartbeat_comes_at_the_second_tick() {
    assert_eq!(WARM_UP_TICKS, 2);
    let (gateway, mut task) = started();
    assert!(matches!(task.on_tick(&gateway), HeartbeatStep::Wait));
    assert!(matches!(task.on_tick(&gateway), HeartbeatStep::Send(ref t) if t == r#"{"d":1,"op":1}"#));
    assert!(matches!(task.on_tick(&gateway), HeartbeatStep::Send(_)));
    assert!(!task.stopped);
}

#[test]
fn heartbeat_carries_the_sequence_of_its_tick() {
    let (mut gateway, mut task) = started();
    task.on_tick(&gateway);
    gateway.receive(Incoming::Text(String::from(r#"{"op":0,"t":"X","s":12,"d":null}"#)));
    assert!(matches!(task.on_tick(&gateway), HeartbeatStep::Send(ref t) if t == r#"{"d":12,"op":1}"#));
    gateway.receive(Incoming::Text(String::from(r#"{"op":0,"t":"X","s":11,"d":null}"#)));
    assert!(matches!(task.on_tick(&gateway), HeartbeatStep::Send(ref t) if t == r#"{"d":12,"op":1}"#));
}

#[test]
fn old_task_stops_after_a_resume() {
    let (mut gateway, mut old) = started();
    old.on_tick(&gateway);
    assert!(matches!(old.on_tick(&gateway), HeartbeatStep::Send(_)));

    gateway.receive(Incoming::Close(Some(1006)));
    // resuming, but the socket is not there yet: the task belongs to the connection still
    assert!(matches!(old.on_tick(&gateway), HeartbeatStep::Send(_)));
    gateway.resume_connected().expect("the session is known");

    assert!(matches!(old.on_tick(&gateway), HeartbeatStep::Stop));
    assert!(old.stopped);
    assert!(matches!(old.on_tick(&gateway), HeartbeatStep::Stop));

    let actions =
        gateway.receive(Incoming::Text(String::from(r#"{"op":10,"d":{"heartbeat_interval":50}}"#)));
    let mut new = match actions[0] {
        GatewayAction::StartHeartbeat(50, 1) => HeartbeatTask::new(1),
        ref other => panic!("no heartbeat: {:?}", other),
    };
    assert!(matches!(new.on_tick(&gateway), HeartbeatStep::Wait));
    assert!(matches!(new.on_tick(&gateway), HeartbeatStep::Send(_)));
    assert!(matches!(old.on_tick(&gateway), HeartbeatStep::Stop));
}

#[test]
fn task_stops_when_the_gateway_is_closed() {
    let (mut gateway, mut task) = started();
    gateway.close();
    assert!(matches!(task.on_tick(&gateway), HeartbeatStep::Stop));
    assert!(matches!(task.on_tick(&gateway), HeartbeatStep::Stop));
}

#[test]
fn task_stops_for_good_after_a_failed_send() {
    let (gateway, mut task) = started();
    task.on_tick(&gateway);
    assert!(matches!(task.on_tick(&gateway), HeartbeatStep::Send(_)));
    task.on_send_failed();
    assert!(task.stopped);
    assert!(matches!(task.on_tick(&gateway), HeartbeatStep::Stop));
}
