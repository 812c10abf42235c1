//! The room: the single pairing context that holds up to two peer
//! connections, and the decisions taken on join, leave and relay requests.
use vstd::prelude::*;
use serde_json::Value;

verus! {

/// A connection's identity: assigned once when the connection is accepted,
/// never reused.
pub type ConnId = u64;

/// A message that the room sends to one connection.
#[derive(Debug, PartialEq)]
pub enum Outbound {
    /// A peer with this name has joined the room.
    Joined { username: String },
    /// The peer with this name has left; the room is reset.
    Left { username: String },
    /// The room holds more members than it accepts.
    Full,
    /// The connection is already a member.
    AlreadyJoined,
    /// There is no peer to relay to.
    NoMembers,
    /// A session offer from the named peer.
    Offer { username: String, sdp: Value },
    /// A session answer from the named peer.
    Answer { username: String, sdp: Value },
    /// An ICE candidate from the named peer.
    IceCandidate { username: String, candidate: Value },
}

/// One outbound message and the connection it goes to.
#[derive(Debug, PartialEq)]
pub struct Delivery {
    pub to: ConnId,
    pub message: Outbound,
}

/// The two kinds of session description that the room relays.
#[derive(Clone, Copy, Debug, PartialEq, Eq, Structural)]
pub enum SdpKind {
    Offer,
    Answer,
}

/// An error of the room's own bookkeeping.
#[derive(Clone, Copy, Debug, PartialEq, Eq, Structural)]
pub enum RoomError {
    /// A relay needed a peer while the room held fewer than two members.
    InvariantViolation,
}

/// A request that a connection makes of the room.
#[derive(Debug, PartialEq)]
pub enum Command {
    Join { username: String, conn: ConnId },
    Leave { username: String, conn: ConnId },
    Sdp { kind: SdpKind, username: String, sdp: Value, conn: ConnId },
    IceCandidate { username: String, candidate: Value, conn: ConnId },
}

/// The members after the room has carried out `cmd`.
pub open spec fn command_members(members: Seq<ConnId>, cmd: Command) -> Seq<ConnId> {
    match cmd {
        Command::Join { conn, .. } => join_members(members, conn),
        Command::Leave { .. } => Seq::empty(),
        Command::Sdp { .. } => members,
        Command::IceCandidate { .. } => members,
    }
}

/// What the room sends when it carries out `cmd`.
pub open spec fn command_replies(members: Seq<ConnId>, cmd: Command) -> Result<
    Seq<Delivery>,
    RoomError,
> {
    match cmd {
        Command::Join { username, conn } => Ok(join_replies(members, username, conn)),
        Command::Leave { username, .. } => Ok(leave_replies(members, username)),
        Command::Sdp { kind, username, sdp, conn } => match sdp_reply(
            members,
            kind,
            username,
            sdp,
            conn,
        ) {
            Ok(d) => Ok(seq![d]),
            Err(e) => Err(e),
        },
        Command::IceCandidate { username, candidate, conn } => Ok(
            seq![ice_reply(members, username, candidate, conn)],
        ),
    }
}

/// The member that a message from `conn` is relayed to: the first member
/// other than `conn`.
pub open spec fn opposite(members: Seq<ConnId>, conn: ConnId) -> ConnId
    recommends
        members.len() >= 2,
{
    if members[0] != conn {
        members[0]
    } else {
        members[1]
    }
}

/// A room's members: no connection twice, and two at most.
pub open spec fn valid_members(members: Seq<ConnId>) -> bool {
    members.no_duplicates() && members.len() <= 2
}

/// The members after `conn` asks to join.
pub open spec fn join_members(members: Seq<ConnId>, conn: ConnId) -> Seq<ConnId> {
    if members.contains(conn) || members.len() >= 2 {
        members
    } else {
        members.push(conn)
    }
}

/// What the room sends when `conn` asks to join under `username`.
pub open spec fn join_replies(members: Seq<ConnId>, username: String, conn: ConnId) -> Seq<
    Delivery,
> {
    if members.contains(conn) {
        seq![Delivery { to: conn, message: Outbound::AlreadyJoined }]
    } else if members.len() >= 2 {
        seq![Delivery { to: conn, message: Outbound::Full }]
    } else if members.len() == 0 {
        seq![]
    } else {
        seq![Delivery { to: members[0], message: Outbound::Joined { username } }]
    }
}

/// What the room sends when a member leaves: the name goes to every member.
pub open spec fn leave_replies(members: Seq<ConnId>, username: String) -> Seq<Delivery> {
    members.map_values(|m: ConnId| Delivery { to: m, message: Outbound::Left { username } })
}

/// What the room sends when `conn` relays a session description.
pub open spec fn sdp_reply(
    members: Seq<ConnId>,
    kind: SdpKind,
    username: String,
    sdp: Value,
    conn: ConnId,
) -> Result<Delivery, RoomError> {
    if members.len() < 2 {
        match kind {
            SdpKind::Offer => Ok(Delivery { to: conn, message: Outbound::NoMembers }),
            SdpKind::Answer => Err(RoomError::InvariantViolation),
        }
    } else {
        Ok(
            Delivery {
                to: opposite(members, conn),
                message: match kind {
                    SdpKind::Offer => Outbound::Offer { username, sdp },
                    SdpKind::Answer => Outbound::Answer { username, sdp },
                },
            },
        )
    }
}

/// What the room sends when `conn` relays an ICE candidate.
pub open spec fn ice_reply(
    members: Seq<ConnId>,
    username: String,
    candidate: Value,
    conn: ConnId,
) -> Delivery {
    if members.len() < 2 {
        Delivery { to: conn, message: Outbound::NoMembers }
    } else {
        Delivery {
            to: opposite(members, conn),
            message: Outbound::IceCandidate { username, candidate },
        }
    }
}

/// The room's membership, in order of joining.
pub struct Room {
    members: Vec<ConnId>,
}

impl Room {
    /// The members, in order of joining.
    pub closed spec fn members(&self) -> Seq<ConnId> {
        self.members@
    }

    /// No connection is a member twice, and the room holds two members at
    /// most.
    #[verifier::type_invariant]
    spec fn inv(&self) -> bool {
        valid_members(self.members@)
    }

    /// An empty room.
    pub fn new() -> (r: Room)
        ensures
            r.members() == Seq::<ConnId>::empty(),
            valid_members(r.members()),
    {
        Room { members: Vec::new() }
    }

    /// The number of members.
    pub fn len(&self) -> (r: usize)
        ensures
            valid_members(self.members()),
            r == self.members().len(),
    {
        proof {
            use_type_invariant(self);
        }
        self.members.len()
    }

    /// The members, in order of joining.
    pub fn member_list(&self) -> (r: Vec<ConnId>)
        ensures
            valid_members(self.members()),
            r@ == self.members(),
    {
        proof {
            use_type_invariant(self);
        }
        let mut out: Vec<ConnId> = Vec::new();
        let mut i: usize = 0;
        while i < self.members.len()
            invariant
                i <= self.members@.len(),
                out@ == self.members@.subrange(0, i as int),
            decreases self.members@.len() - i,
        {
            out.push(self.members[i]);
            proof {
                assert(self.members@.subrange(0, i + 1) =~= self.members@.subrange(
                    0,
                    i as int,
                ).push(self.members@[i as int]));
            }
            i = i + 1;
        }
        assert(self.members@.subrange(0, i as int) =~= self.members@);
        out
    }

    /// Whether `conn` is a member.
    pub fn contains(&self, conn: ConnId) -> (r: bool)
        ensures
            valid_members(self.members()),
            r == self.members().contains(conn),
    {
        proof {
            use_type_invariant(self);
        }
        let mut i: usize = 0;
        while i < self.members.len()
            invariant
                i <= self.members@.len(),
                valid_members(self.members@),
                forall|k: int| 0 <= k < i ==> self.members@[k] != conn,
            decreases self.members@.len() - i,
        {
            if self.members[i] == conn {
                assert(self.members@[i as int] == conn);
                return true;
            }
            i = i + 1;
        }
        false
    }

    /// The member that a message from `conn` goes to: the first member other
    /// than `conn`. `Err(InvariantViolation)` when fewer than two are present.
    pub fn find_opposite(&self, conn: ConnId) -> (r: Result<ConnId, RoomError>)
        ensures
            valid_members(self.members()),
            self.members().len() < 2 ==> r == Err::<ConnId, RoomError>(
                RoomError::InvariantViolation,
            ),
            self.members().len() >= 2 ==> r == Ok::<ConnId, RoomError>(
                opposite(self.members(), conn),
            ),
            r.is_ok() ==> r.unwrap() != conn && self.members().contains(r.unwrap()),
    {
        proof {
            use_type_invariant(self);
        }
        if self.members.len() < 2 {
            return Err(RoomError::InvariantViolation);
        }
        let first = self.members[0];
        if first != conn {
            Ok(first)
        } else {
            assert(self.members@[1] != self.members@[0]);
            Ok(self.members[1])
        }
    }

    /// `conn` asks to join under `username`. A member is answered
    /// `AlreadyJoined`; a newcomer is answered `Full` when two members are
    /// present already, and otherwise added, the first member being told
    /// that `username` has joined.
    pub fn join(&mut self, username: String, conn: ConnId) -> (r: Vec<Delivery>)
        ensures
            valid_members(old(self).members()),
            valid_members(final(self).members()),
            final(self).members() == join_members(old(self).members(), conn),
            r@ == join_replies(old(self).members(), username, conn),
    {
        proof {
            use_type_invariant(&*self);
        }
        if self.contains(conn) {
            return vec![Delivery { to: conn, message: Outbound::AlreadyJoined }];
        }
        if self.members.len() >= 2 {
            return vec![Delivery { to: conn, message: Outbound::Full }];
        }
        let ghost before = self.members@;
        let mut grown = self.member_list();
        grown.push(conn);
        proof {
            assert(grown@.no_duplicates()) by {
                assert forall|i: int, j: int|
                    0 <= i < j < grown@.len() implies grown@[i] != grown@[j] by {
                    if j == before.len() {
                        assert(before.contains(before[i]));
                    } else {
                        assert(before[i] != before[j]);
                    }
                }
            }
        }
        self.members = grown;
        if self.members.len() <= 1 {
            return vec![];
        }
        let to = self.members[0];
        vec![Delivery { to, message: Outbound::Joined { username } }]
    }

    /// `username` leaves: every member is told, the leaving connection
    /// included, and the room is emptied.
    pub fn leave(&mut self, username: String, conn: ConnId) -> (r: Vec<Delivery>)
        ensures
            valid_members(old(self).members()),
            valid_members(final(self).members()),
            final(self).members() == Seq::<ConnId>::empty(),
            r@ == leave_replies(old(self).members(), username),
    {
        proof {
            use_type_invariant(&*self);
        }
        let mut out: Vec<Delivery> = Vec::new();
        let mut i: usize = 0;
        while i < self.members.len()
            invariant
                i <= self.members@.len(),
                out@ == leave_replies(self.members@.subrange(0, i as int), username),
            decreases self.members@.len() - i,
        {
            let to = self.members[i];
            out.push(Delivery { to, message: Outbound::Left { username: username.clone() } });
            proof {
                assert(self.members@.subrange(0, i + 1) =~= self.members@.subrange(
                    0,
                    i as int,
                ).push(to));
                assert(out@ =~= leave_replies(self.members@.subrange(0, i + 1), username));
            }
            i = i + 1;
        }
        assert(self.members@.subrange(0, i as int) =~= self.members@);
        self.members = Vec::new();
        out
    }

    /// `conn` relays a session description of the given kind. An offer with
    /// no peer present is answered `NoMembers`; an answer with no peer present
    /// is `Err(InvariantViolation)`; otherwise the description goes, as it
    /// came, to the other member.
    pub fn relay_sdp(&self, kind: SdpKind, username: String, sdp: Value, conn: ConnId) -> (r:
        Result<Delivery, RoomError>)
        ensures
            valid_members(self.members()),
            r == sdp_reply(self.members(), kind, username, sdp, conn),
    {
        proof {
            use_type_invariant(self);
        }
        // an answer is relayed without the guard that an offer has: with no
        // peer present the lookup of the other member fails
        if kind == SdpKind::Offer && self.members.len() < 2 {
            return Ok(Delivery { to: conn, message: Outbound::NoMembers });
        }
        let to = match self.find_opposite(conn) {
            Ok(to) => to,
            Err(e) => {
                return Err(e);
            },
        };
        let message = match kind {
            SdpKind::Offer => Outbound::Offer { username, sdp },
            SdpKind::Answer => Outbound::Answer { username, sdp },
        };
        Ok(Delivery { to, message })
    }

    /// `conn` relays an ICE candidate: answered `NoMembers` with no peer
    /// present, otherwise sent, as it came, to the other member.
    pub fn relay_ice_candidate(&self, username: String, candidate: Value, conn: ConnId) -> (r:
        Delivery)
        ensures
            valid_members(self.members()),
            r == ice_reply(self.members(), username, candidate, conn),
    {
        proof {
            use_type_invariant(self);
        }
        if self.members.len() < 2 {
            return Delivery { to: conn, message: Outbound::NoMembers };
        }
        let to = match self.find_opposite(conn) {
            Ok(to) => to,
            Err(_) => {
                return Delivery { to: conn, message: Outbound::NoMembers };
            },
        };
        Delivery { to, message: Outbound::IceCandidate { username, candidate } }
    }

    /// Carries out one request, one at a time: membership checks and changes
    /// are never interleaved with another request.
    pub fn handle(&mut self, cmd: Command) -> (r: Result<Vec<Delivery>, RoomError>)
        ensures
            valid_members(old(self).members()),
            valid_members(final(self).members()),
            final(self).members() == command_members(old(self).members(), cmd),
            r matches Ok(v) ==> command_replies(old(self).members(), cmd) == Ok::<
                Seq<Delivery>,
                RoomError,
            >(v@),
            r matches Err(e) ==> command_replies(old(self).members(), cmd) == Err::<
                Seq<Delivery>,
                RoomError,
            >(e),
    {
        proof {
            use_type_invariant(&*self);
        }
        match cmd {
            Command::Join { username, conn } => Ok(self.join(username, conn)),
            Command::Leave { username, conn } => Ok(self.leave(username, conn)),
            Command::Sdp { kind, username, sdp, conn } => {
                match self.relay_sdp(kind, username, sdp, conn) {
                    Ok(d) => {
                        let v = vec![d];
                        assert(v@ =~= seq![d]);
                        Ok(v)
                    },
                    Err(e) => Err(e),
                }
            },
            Command::IceCandidate { username, candidate, conn } => {
                let v = vec![self.relay_ice_candidate(username, candidate, conn)];
                assert(v@ =~= seq![v@[0]]);
                Ok(v)
            },
        }
    }
}

} // verus!
