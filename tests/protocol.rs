use serde_json::Value;
use signaling_relay::protocol::{
    handle_answer, handle_icecandidate, handle_join, handle_leave, handle_offer, parse_event,
    route, Body, Envelope, Event, ProtocolError, WireMessage,
};
use signaling_relay::room::{Command, Outbound, SdpKind};

fn env(event: Option<&str>, from: Option<&str>, body: Value, username: Option<&str>) -> Envelope {
    Envelope {
        event: event.map(|e| e.to_string()),
        from: from.map(|f| f.to_string()),
        body,
        body_username: username.map(|u| u.to_string()),
    }
}

#[test]
fn event_names() {
    assert_eq!(parse_event(&"join".to_string()), Some(Event::Join));
    assert_eq!(parse_event(&"leave".to_string()), Some(Event::Leave));
    assert_eq!(parse_event(&"offer".to_string()), Some(Event::Offer));
    assert_eq!(parse_event(&"answer".to_string()), Some(Event::Answer));
    assert_eq!(parse_event(&"icecandidate".to_string()), Some(Event::IceCandidate));
    assert_eq!(parse_event(&"Join".to_string()), None);
    assert_eq!(parse_event(&"".to_string()), None);
}

#[test]
fn route_join_reads_body_username() {
    assert_eq!(
        route(env(Some("join"), None, Value::Null, Some("alice")), 3),
        Ok(Some(Command::Join { username: "alice".to_string(), conn: 3 }))
    );
    assert_eq!(
        route(env(Some("join"), Some("alice"), Value::Null, None), 3),
        Err(ProtocolError::ValidationError)
    );
}

#[test]
fn route_leave_reads_from() {
    assert_eq!(
        route(env(Some("leave"), Some("bob"), Value::Null, None), 4),
        Ok(Some(Command::Leave { username: "bob".to_string(), conn: 4 }))
    );
    assert_eq!(
        route(env(Some("leave"), None, Value::Null, None), 4),
        Err(ProtocolError::ValidationError)
    );
}

#[test]
fn route_relays_carry_body() {
    let body = Value::String("v=0".to_string());
    assert_eq!(
        route(env(Some("offer"), Some("a"), body.clone(), None), 1),
        Ok(Some(Command::Sdp { kind: SdpKind::Offer, username: "a".to_string(), sdp: body.clone(), conn: 1 }))
    );
    assert_eq!(
        route(env(Some("answer"), Some("b"), body.clone(), None), 2),
        Ok(Some(Command::Sdp { kind: SdpKind::Answer, username: "b".to_string(), sdp: body.clone(), conn: 2 }))
    );
    assert_eq!(
        route(env(Some("icecandidate"), Some("b"), body.clone(), None), 2),
        Ok(Some(Command::IceCandidate { username: "b".to_string(), candidate: body, conn: 2 }))
    );
    assert_eq!(
        route(env(Some("offer"), None, Value::Null, None), 1),
        Err(ProtocolError::ValidationError)
    );
}

#[test]
fn route_missing_or_unknown_event() {
    assert_eq!(route(env(None, Some("a"), Value::Null, None), 1), Err(ProtocolError::ParseError));
    assert_eq!(route(env(Some("ping"), Some("a"), Value::Null, None), 1), Ok(None));
}

#[test]
fn handlers_by_name() {
    assert_eq!(
        handle_join(env(Some("join"), None, Value::Null, Some("x")), 9),
        Ok(Command::Join { username: "x".to_string(), conn: 9 })
    );
    assert_eq!(
        handle_leave(env(Some("leave"), Some("x"), Value::Null, None), 9),
        Ok(Command::Leave { username: "x".to_string(), conn: 9 })
    );
    assert_eq!(
        handle_offer(env(Some("offer"), Some("x"), Value::Bool(true), None), 9),
        Ok(Command::Sdp { kind: SdpKind::Offer, username: "x".to_string(), sdp: Value::Bool(true), conn: 9 })
    );
    assert_eq!(
        handle_answer(env(Some("answer"), None, Value::Null, None), 9),
        Err(ProtocolError::ValidationError)
    );
    assert_eq!(
        handle_icecandidate(env(Some("icecandidate"), Some("x"), Value::Null, None), 9),
        Ok(Command::IceCandidate { username: "x".to_string(), candidate: Value::Null, conn: 9 })
    );
}

#[test]
fn outbound_envelopes() {
    let u = || "u2".to_string();
    assert_eq!(
        Outbound::Joined { username: u() }.to_wire(),
        WireMessage { event: "joined".to_string(), from: Some(u()), body: Body::Username(u()) }
    );
    assert_eq!(
        Outbound::Left { username: u() }.to_wire(),
        WireMessage { event: "left".to_string(), from: Some(u()), body: Body::Absent }
    );
    assert_eq!(
        Outbound::Full.to_wire(),
        WireMessage { event: "room_full".to_string(), from: None, body: Body::Absent }
    );
    assert_eq!(
        Outbound::AlreadyJoined.to_wire(),
        WireMessage { event: "room_full".to_string(), from: None, body: Body::Absent }
    );
    assert_eq!(
        Outbound::NoMembers.to_wire(),
        WireMessage { event: "nomembers".to_string(), from: None, body: Body::Absent }
    );
    let p = Value::String("cand".to_string());
    assert_eq!(
        Outbound::IceCandidate { username: u(), candidate: p.clone() }.to_wire(),
        WireMessage { event: "icecandidate".to_string(), from: Some(u()), body: Body::Payload(p.clone()) }
    );
    assert_eq!(
        Outbound::Offer { username: u(), sdp: p.clone() }.to_wire(),
        WireMessage { event: "offer".to_string(), from: Some(u()), body: Body::Payload(p.clone()) }
    );
    assert_eq!(
        Outbound::Answer { username: u(), sdp: p.clone() }.to_wire(),
        WireMessage { event: "answer".to_string(), from: Some(u()), body: Body::Payload(p) }
    );
}
