//! The protocol router: inbound envelopes become room requests, and the
//! room's messages become outbound envelopes.
use vstd::prelude::*;
use serde_json::Value;
use crate::room::{Command, ConnId, Outbound, SdpKind};

verus! {

/// An inbound envelope, as read from one text frame: the `event` tag, the
/// `from` name, the `body` payload (JSON null where absent) and, where the
/// body is an object with a string `username`, that name.
#[derive(Debug, PartialEq)]
pub struct Envelope {
    pub event: Option<String>,
    pub from: Option<String>,
    pub body: Value,
    pub body_username: Option<String>,
}

/// Why an inbound envelope was not acted on.
#[derive(Clone, Copy, Debug, PartialEq, Eq, Structural)]
pub enum ProtocolError {
    /// The frame was not structured data, or had no `event` tag.
    ParseError,
    /// A field that the event needs was missing or of the wrong type.
    ValidationError,
}

/// The events that a connection may send.
#[derive(Clone, Copy, Debug, PartialEq, Eq, Structural)]
pub enum Event {
    Join,
    Leave,
    Offer,
    Answer,
    IceCandidate,
}

/// The event named by the tag `name`, if any.
pub open spec fn event_of(name: Seq<char>) -> Option<Event> {
    if name == "join"@ {
        Some(Event::Join)
    } else if name == "leave"@ {
        Some(Event::Leave)
    } else if name == "offer"@ {
        Some(Event::Offer)
    } else if name == "answer"@ {
        Some(Event::Answer)
    } else if name == "icecandidate"@ {
        Some(Event::IceCandidate)
    } else {
        None
    }
}

fn text_eq(a: &String, b: &str) -> (r: bool)
    ensures
        r == (a@ == b@),
{
    *a == b.to_owned()
}

/// The event named by the tag `name`, if any.
pub fn parse_event(name: &String) -> (r: Option<Event>)
    ensures
        r == event_of(name@),
{
    if text_eq(name, "join") {
        Some(Event::Join)
    } else if text_eq(name, "leave") {
        Some(Event::Leave)
    } else if text_eq(name, "offer") {
        Some(Event::Offer)
    } else if text_eq(name, "answer") {
        Some(Event::Answer)
    } else if text_eq(name, "icecandidate") {
        Some(Event::IceCandidate)
    } else {
        None
    }
}

/// A relay request from the sender named in `from`, with the body as payload.
pub open spec fn relay_command(env: Envelope, event: Event, conn: ConnId) -> Result<
    Command,
    ProtocolError,
> {
    match env.from {
        None => Err(ProtocolError::ValidationError),
        Some(username) => Ok(
            match event {
                Event::Offer => Command::Sdp { kind: SdpKind::Offer, username, sdp: env.body, conn },
                Event::Answer => Command::Sdp {
                    kind: SdpKind::Answer,
                    username,
                    sdp: env.body,
                    conn,
                },
                _ => Command::IceCandidate { username, candidate: env.body, conn },
            },
        ),
    }
}

/// The room request that `env`, received on `conn`, makes: `None` for an
/// event that the protocol does not know.
pub open spec fn route_of(env: Envelope, conn: ConnId) -> Result<Option<Command>, ProtocolError> {
    match env.event {
        None => Err(ProtocolError::ParseError),
        Some(name) => match event_of(name@) {
            None => Ok(None),
            Some(Event::Join) => match env.body_username {
                None => Err(ProtocolError::ValidationError),
                Some(username) => Ok(Some(Command::Join { username, conn })),
            },
            Some(Event::Leave) => match env.from {
                None => Err(ProtocolError::ValidationError),
                Some(username) => Ok(Some(Command::Leave { username, conn })),
            },
            Some(event) => match relay_command(env, event, conn) {
                Ok(c) => Ok(Some(c)),
                Err(e) => Err(e),
            },
        },
    }
}

/// A join: the name comes from the body's `username`.
pub fn handle_join(env: Envelope, conn: ConnId) -> (r: Result<Command, ProtocolError>)
    ensures
        r == (match env.body_username {
            None => Err(ProtocolError::ValidationError),
            Some(username) => Ok(Command::Join { username, conn }),
        }),
{
    match env.body_username {
        None => Err(ProtocolError::ValidationError),
        Some(username) => Ok(Command::Join { username, conn }),
    }
}

/// A leave: the name comes from `from`.
pub fn handle_leave(env: Envelope, conn: ConnId) -> (r: Result<Command, ProtocolError>)
    ensures
        r == (match env.from {
            None => Err(ProtocolError::ValidationError),
            Some(username) => Ok(Command::Leave { username, conn }),
        }),
{
    match env.from {
        None => Err(ProtocolError::ValidationError),
        Some(username) => Ok(Command::Leave { username, conn }),
    }
}

/// An offer from the sender named in `from`, with the body as description.
pub fn handle_offer(env: Envelope, conn: ConnId) -> (r: Result<Command, ProtocolError>)
    ensures
        r == relay_command(env, Event::Offer, conn),
{
    match env.from {
        None => Err(ProtocolError::ValidationError),
        Some(username) => Ok(Command::Sdp { kind: SdpKind::Offer, username, sdp: env.body, conn }),
    }
}

/// An answer from the sender named in `from`, with the body as description.
pub fn handle_answer(env: Envelope, conn: ConnId) -> (r: Result<Command, ProtocolError>)
    ensures
        r == relay_command(env, Event::Answer, conn),
{
    match env.from {
        None => Err(ProtocolError::ValidationError),
        Some(username) => Ok(
            Command::Sdp { kind: SdpKind::Answer, username, sdp: env.body, conn },
        ),
    }
}

/// An ICE candidate from the sender named in `from`, with the body as
/// candidate.
pub fn handle_icecandidate(env: Envelope, conn: ConnId) -> (r: Result<Command, ProtocolError>)
    ensures
        r == relay_command(env, Event::IceCandidate, conn),
{
    match env.from {
        None => Err(ProtocolError::ValidationError),
        Some(username) => Ok(Command::IceCandidate { username, candidate: env.body, conn }),
    }
}

/// Dispatches an envelope received on `conn` by its event tag.
pub fn route(env: Envelope, conn: ConnId) -> (r: Result<Option<Command>, ProtocolError>)
    ensures
        r == route_of(env, conn),
{
    let event = match &env.event {
        None => {
            return Err(ProtocolError::ParseError);
        },
        Some(name) => parse_event(name),
    };
    let cmd = match event {
        None => {
            return Ok(None);
        },
        Some(Event::Join) => handle_join(env, conn),
        Some(Event::Leave) => handle_leave(env, conn),
        Some(Event::Offer) => handle_offer(env, conn),
        Some(Event::Answer) => handle_answer(env, conn),
        Some(Event::IceCandidate) => handle_icecandidate(env, conn),
    };
    match cmd {
        Ok(c) => Ok(Some(c)),
        Err(e) => Err(e),
    }
}

/// The `body` of an outbound envelope.
#[derive(Debug, PartialEq)]
pub enum Body {
    /// No body.
    Absent,
    /// An object whose one field `username` holds this name.
    Username(String),
    /// A payload relayed as it came.
    Payload(Value),
}

/// An outbound envelope: `{event, from, body}`, with `from` and `body`
/// left out where absent.
#[derive(Debug, PartialEq)]
pub struct WireMessage {
    pub event: String,
    pub from: Option<String>,
    pub body: Body,
}

/// The event tag of the envelope that carries `m`. Full and already-joined
/// share one tag.
pub open spec fn wire_event(m: Outbound) -> Seq<char> {
    match m {
        Outbound::Joined { .. } => "joined"@,
        Outbound::Left { .. } => "left"@,
        Outbound::Full => "room_full"@,
        Outbound::AlreadyJoined => "room_full"@,
        Outbound::NoMembers => "nomembers"@,
        Outbound::Offer { .. } => "offer"@,
        Outbound::Answer { .. } => "answer"@,
        Outbound::IceCandidate { .. } => "icecandidate"@,
    }
}

/// The `from` field of the envelope that carries `m`.
pub open spec fn wire_from(m: Outbound) -> Option<String> {
    match m {
        Outbound::Joined { username } => Some(username),
        Outbound::Left { username } => Some(username),
        Outbound::Offer { username, .. } => Some(username),
        Outbound::Answer { username, .. } => Some(username),
        Outbound::IceCandidate { username, .. } => Some(username),
        _ => None,
    }
}

/// The `body` field of the envelope that carries `m`.
pub open spec fn wire_body(m: Outbound) -> Body {
    match m {
        Outbound::Joined { username } => Body::Username(username),
        Outbound::Offer { sdp, .. } => Body::Payload(sdp),
        Outbound::Answer { sdp, .. } => Body::Payload(sdp),
        Outbound::IceCandidate { candidate, .. } => Body::Payload(candidate),
        _ => Body::Absent,
    }
}

impl Outbound {
    /// The envelope that carries this message.
    pub fn to_wire(self) -> (r: WireMessage)
        ensures
            r.event@ == wire_event(self),
            r.from == wire_from(self),
            r.body == wire_body(self),
    {
        match self {
            Outbound::Joined { username } => {
                let name = username.clone();
                WireMessage {
                    event: "joined".to_owned(),
                    from: Some(username),
                    body: Body::Username(name),
                }
            },
            Outbound::Left { username } => WireMessage {
                event: "left".to_owned(),
                from: Some(username),
                body: Body::Absent,
            },
            Outbound::Full => WireMessage {
                event: "room_full".to_owned(),
                from: None,
                body: Body::Absent,
            },
            Outbound::AlreadyJoined => WireMessage {
                event: "room_full".to_owned(),
                from: None,
                body: Body::Absent,
            },
            Outbound::NoMembers => WireMessage {
                event: "nomembers".to_owned(),
                from: None,
                body: Body::Absent,
            },
            Outbound::Offer { username, sdp } => WireMessage {
                event: "offer".to_owned(),
                from: Some(username),
                body: Body::Payload(sdp),
            },
            Outbound::Answer { username, sdp } => WireMessage {
                event: "answer".to_owned(),
                from: Some(username),
                body: Body::Payload(sdp),
            },
            Outbound::IceCandidate { username, candidate } => WireMessage {
                event: "icecandidate".to_owned(),
                from: Some(username),
                body: Body::Payload(candidate),
            },
        }
    }
}

} // verus!
