//! Properties of the room and the protocol that hold over all inputs, or
//! over sequences of requests processed one at a time.
use vstd::prelude::*;
use serde_json::Value;
use crate::protocol::{event_of, route_of, Event, wire_body, wire_event, wire_from, Body, Envelope};
use crate::room::{
    command_replies, join_members, join_replies, opposite, leave_replies, sdp_reply, ice_reply, valid_members, ConnId,
    Delivery, Outbound, RoomError, SdpKind,
};

verus! {

/// The members after the connections in `conns` ask to join, one after the
/// other, starting from `members`.
pub open spec fn joins(members: Seq<ConnId>, conns: Seq<ConnId>) -> Seq<ConnId>
    decreases conns.len(),
{
    if conns.len() == 0 {
        members
    } else {
        join_members(joins(members, conns.drop_last()), conns.last())
    }
}

/// Joins from any connections, processed one at a time from a valid room,
/// keep the room valid (no connection twice, two members at most), and only
/// ever add members after those already present.
pub proof fn lemma_joins_keep_capacity(members: Seq<ConnId>, conns: Seq<ConnId>)
    requires
        valid_members(members),
    ensures
        valid_members(joins(members, conns)),
        members.is_prefix_of(joins(members, conns)),
    decreases conns.len(),
{
    if conns.len() > 0 {
        lemma_joins_keep_capacity(members, conns.drop_last());
        let before = joins(members, conns.drop_last());
        let c = conns.last();
        if !before.contains(c) && before.len() < 2 {
            let after = before.push(c);
            assert(after.no_duplicates()) by {
                assert forall|i: int, j: int| 0 <= i < j < after.len() implies after[i]
                    != after[j] by {
                    if j == before.len() {
                        assert(before.contains(before[i]));
                    } else {
                        assert(before[i] != before[j]);
                    }
                }
            }
        }
    }
}

/// Joins from distinct connections into an empty room, processed one at a
/// time: the first two that arrive are members, in order of arrival; the
/// first is told nothing, the second has the first told that it joined, and
/// every later one is answered `Full` and changes nothing.
pub proof fn lemma_serial_distinct_joins(conns: Seq<ConnId>)
    requires
        conns.no_duplicates(),
    ensures
        joins(Seq::empty(), conns) == conns.take(if conns.len() < 2 {
            conns.len() as int
        } else {
            2
        }),
        forall|username: String|
            conns.len() > 0 ==> #[trigger] join_replies(Seq::empty(), username, conns[0])
                == Seq::<Delivery>::empty(),
        forall|username: String|
            conns.len() > 1 ==> #[trigger] join_replies(
                joins(Seq::empty(), conns.take(1)),
                username,
                conns[1],
            ) == seq![Delivery { to: conns[0], message: Outbound::Joined { username } }],
        forall|k: int, username: String|
            2 <= k < conns.len() ==> #[trigger] join_replies(
                joins(Seq::empty(), conns.take(k)),
                username,
                conns[k],
            ) == seq![Delivery { to: conns[k], message: Outbound::Full }],
    decreases conns.len(),
{
    let n = conns.len();
    if n > 0 {
        let prefix = conns.drop_last();
        assert(prefix.no_duplicates()) by {
            assert forall|i: int, j: int| 0 <= i < j < prefix.len() implies prefix[i] != prefix[j] by {
                assert(conns[i] != conns[j]);
            }
        }
        lemma_serial_distinct_joins(prefix);
        let m = if prefix.len() < 2 { prefix.len() as int } else { 2 };
        assert(!prefix.take(m).contains(conns.last())) by {
            if prefix.take(m).contains(conns.last()) {
                let i = choose|i: int| 0 <= i < m && prefix.take(m)[i] == conns.last();
                assert(conns[i] == conns[n - 1]);
            }
        }
        if prefix.len() < 2 {
            assert(prefix.take(m).push(conns.last()) =~= conns.take(n as int));
        } else {
            assert(prefix.take(2) =~= conns.take(2));
        }
    }
    if n > 1 {
        let p1 = conns.take(1);
        assert(joins(Seq::empty(), p1.drop_last()) == Seq::<ConnId>::empty()) by {
            assert(p1.drop_last().len() == 0);
        }
        assert(joins(Seq::empty(), p1) =~= seq![conns[0]]);
        assert(!seq![conns[0]].contains(conns[1])) by {
            assert(conns[0] != conns[1]);
        }
    }
    assert forall|k: int, username: String|
        2 <= k < conns.len() implies #[trigger] join_replies(
        joins(Seq::empty(), conns.take(k)),
        username,
        conns[k],
    ) == seq![Delivery { to: conns[k], message: Outbound::Full }] by {
        let p = conns.take(k);
        assert(p.no_duplicates()) by {
            assert forall|i: int, j: int| 0 <= i < j < p.len() implies p[i] != p[j] by {
                assert(conns[i] != conns[j]);
            }
        }
        lemma_serial_distinct_joins(p);
        assert(p.take(2) =~= conns.take(2));
        assert(!conns.take(2).contains(conns[k])) by {
            if conns.take(2).contains(conns[k]) {
                let i = choose|i: int| 0 <= i < 2 && conns.take(2)[i] == conns[k];
                assert(conns[i] == conns[k]);
            }
        }
    }
}

/// A newcomer that asks to join while two members are present is answered
/// `Full`, and the members stay as they were.
pub proof fn lemma_join_at_capacity_is_full(members: Seq<ConnId>, username: String, conn: ConnId)
    requires
        members.len() >= 2,
        !members.contains(conn),
    ensures
        join_replies(members, username, conn) == seq![
            Delivery { to: conn, message: Outbound::Full },
        ],
        join_members(members, conn) == members,
{
}

/// A member that asks to join again is answered `AlreadyJoined`, whatever
/// the occupancy, and the members stay as they were.
pub proof fn lemma_rejoin_is_already_joined(members: Seq<ConnId>, username: String, conn: ConnId)
    requires
        members.contains(conn),
    ensures
        join_replies(members, username, conn) == seq![
            Delivery { to: conn, message: Outbound::AlreadyJoined },
        ],
        join_members(members, conn) == members,
{
}

/// With fewer than two members, an offer and an ICE candidate are answered
/// `NoMembers` to the sender alone, and nothing is forwarded.
pub proof fn lemma_relay_without_peer(
    members: Seq<ConnId>,
    username: String,
    payload: Value,
    conn: ConnId,
)
    requires
        members.len() < 2,
    ensures
        sdp_reply(members, SdpKind::Offer, username, payload, conn) == Ok::<Delivery, RoomError>(
            Delivery { to: conn, message: Outbound::NoMembers },
        ),
        ice_reply(members, username, payload, conn) == (Delivery {
            to: conn,
            message: Outbound::NoMembers,
        }),
{
}

/// In a room of two distinct members, a description or candidate relayed by
/// one member goes to the other one, tagged with its kind, named after the
/// sender, and carrying the payload as it came into the outbound envelope.
pub proof fn lemma_relay_to_peer(
    members: Seq<ConnId>,
    kind: SdpKind,
    username: String,
    payload: Value,
    conn: ConnId,
)
    requires
        members.len() == 2,
        members.no_duplicates(),
        members.contains(conn),
    ensures
        ({
            let other = if members[0] == conn {
                members[1]
            } else {
                members[0]
            };
            &&& other != conn
            &&& members.contains(other)
            &&& sdp_reply(members, kind, username, payload, conn) matches Ok(d) && d.to == other
                && d.message == (match kind {
                SdpKind::Offer => Outbound::Offer { username, sdp: payload },
                SdpKind::Answer => Outbound::Answer { username, sdp: payload },
            }) && wire_body(d.message) == Body::Payload(payload) && wire_event(d.message) == (
            match kind {
                SdpKind::Offer => "offer"@,
                SdpKind::Answer => "answer"@,
            })
            &&& ice_reply(members, username, payload, conn).to == other
            &&& ice_reply(members, username, payload, conn).message == Outbound::IceCandidate {
                username,
                candidate: payload,
            }
            &&& wire_body(ice_reply(members, username, payload, conn).message) == Body::Payload(
                payload,
            )
        }),
{
    assert(members[0] != members[1]);
}

/// A leave tells every member present, in order of joining, the leaving
/// name: each member exactly once, and no connection that is not a member;
/// the leaving connection is told too when it is a member.
pub proof fn lemma_leave_notifies_all(members: Seq<ConnId>, username: String)
    requires
        valid_members(members),
    ensures
        leave_replies(members, username).len() == members.len(),
        forall|i: int|
            0 <= i < members.len() ==> #[trigger] leave_replies(members, username)[i] == (Delivery {
                to: members[i],
                message: Outbound::Left { username },
            }),
        forall|a: ConnId|
            #![trigger members.contains(a)]
            members.contains(a) ==> exists|i: int|
                0 <= i < members.len() && #[trigger] leave_replies(members, username)[i].to == a,
        forall|i: int, j: int|
            0 <= i < members.len() && 0 <= j < members.len() && #[trigger] leave_replies(
                members,
                username,
            )[i].to == #[trigger] leave_replies(members, username)[j].to ==> i == j,
        forall|i: int|
            0 <= i < members.len() ==> members.contains(
                #[trigger] leave_replies(members, username)[i].to,
            ),
{
    assert forall|a: ConnId| #![trigger members.contains(a)] members.contains(a) implies exists|
        i: int,
    |
        0 <= i < members.len() && #[trigger] leave_replies(members, username)[i].to == a by {
        let i = choose|i: int| 0 <= i < members.len() && members[i] == a;
        assert(leave_replies(members, username)[i].to == a);
    }
    assert forall|i: int| 0 <= i < members.len() implies members.contains(
        #[trigger] leave_replies(members, username)[i].to,
    ) by {
        assert(members[i] == leave_replies(members, username)[i].to);
    }
}

/// An offer, answer or ICE candidate envelope from a member of a two-member
/// room, routed and carried out by the room, yields exactly one outbound
/// envelope, to the other member, whose event is the one received, whose
/// `from` is the sender's name, and whose body is the received body as it
/// came.
pub proof fn lemma_relay_round_trip(members: Seq<ConnId>, env: Envelope, conn: ConnId)
    requires
        valid_members(members),
        members.len() == 2,
        members.contains(conn),
        env.event matches Some(e) && (e@ == "offer"@ || e@ == "answer"@ || e@ == "icecandidate"@),
        env.from is Some,
    ensures
        ({
            let other = if members[0] == conn {
                members[1]
            } else {
                members[0]
            };
            &&& route_of(env, conn) matches Ok(Some(cmd)) && command_replies(members, cmd) matches Ok(
                out,
            ) && out.len() == 1 && out[0].to == other && other != conn && wire_event(out[0].message)
                == env.event.unwrap()@ && wire_from(out[0].message) == env.from && wire_body(
                out[0].message,
            ) == Body::Payload(env.body)
        }),
{
    reveal_strlit("offer");
    reveal_strlit("answer");
    reveal_strlit("icecandidate");
    reveal_strlit("join");
    reveal_strlit("leave");
    assert(members[0] != members[1]);
    let e = env.event.unwrap();
    let u = env.from.unwrap();
    let other = if members[0] == conn {
        members[1]
    } else {
        members[0]
    };
    assert(opposite(members, conn) == other);
    assert("join"@[0] == 'j' && "leave"@[0] == 'l' && "offer"@[0] == 'o' && "answer"@[0] == 'a'
        && "icecandidate"@[0] == 'i');
    if e@ == "offer"@ {
        assert(e@ != "join"@ && e@ != "leave"@);
        assert(event_of(e@) == Some(Event::Offer));
    } else if e@ == "answer"@ {
        assert(e@ != "join"@ && e@ != "leave"@ && e@ != "offer"@);
        assert(event_of(e@) == Some(Event::Answer));
    } else {
        assert(e@ != "join"@ && e@ != "leave"@ && e@ != "offer"@ && e@ != "answer"@);
        assert(event_of(e@) == Some(Event::IceCandidate));
    }
}

} // verus!
