//! The dispatcher: what an incoming message does to the session and which
//! requests it makes of the transport and the state models.

use vstd::prelude::*;
use vstd::string::StringSliceAdditionalSpecFns;
use crate::bytes::{copy_range, lemma_u32_le_write_read, spec_u32_at, spec_u32_to_le, u32_at};
use crate::codec::{
    decode_header, encode, lemma_encode_decode_round_trip, lemma_encode_header_len,
    spec_decode_header, spec_encode,
};
use crate::session::{
    frame, initial_login, redirect_login, spec_actions, spec_disconnect, spec_frame,
    spec_initial_login, spec_redirect_login, Action, ActionView, Phase, Session, SessionView,
};
use crate::text_parse::{contains, spec_contains};
use crate::types::{DecodeError, EPacketType, ETankPacketType, TankPacketType};
use crate::variant_handler;
use crate::variant_handler::spec_outcome;

verus! {

/// The phrase by which the server refuses a login.
pub open spec fn spec_logon_fail_marker() -> Seq<u8> {
    "logon_fail".spec_bytes()
}

/// The phrase by which the server tells of a ban.
pub open spec fn spec_ban_marker() -> Seq<u8> {
    "currently banned".spec_bytes()
}

/// The header of the answer to a ping: kind ping-reply, net id zero, the
/// two vectors (64.0, 64.0) and (1000.0, 250.0) as float bit patterns, and
/// every other field zero, the length field too.
pub open spec fn spec_ping_reply() -> TankPacketType {
    TankPacketType {
        packet_type: ETankPacketType::NetGamePacketPingReply,
        net_id: 0,
        unk2: 0,
        vector_x: 0x4280_0000,
        vector_y: 0x4280_0000,
        vector_x2: 0x447A_0000,
        vector_y2: 0x437A_0000,
        ..TankPacketType::spec_new()
    }
}

/// Whether the session talks to a server that has answered the greeting.
pub open spec fn spec_in_play(s: SessionView) -> bool {
    s.phase == Phase::Authenticating || s.phase == Phase::Connected
}

/// What a greeting does: a session that waits for it, and has a peer,
/// answers with its login line and goes on to authenticate.
pub open spec fn spec_server_hello(s: SessionView) -> (SessionView, Seq<ActionView>) {
    if s.phase == Phase::Handshaking && s.peer_id is Some {
        let body = if s.is_redirect {
            spec_redirect_login(s.login_info)
        } else {
            spec_initial_login(s.token)
        };
        (
            SessionView { phase: Phase::Authenticating, ..s },
            seq![
                ActionView::Send {
                    peer: s.peer_id->Some_0,
                    data: spec_frame(EPacketType::NetMessageGenericText, body),
                },
            ],
        )
    } else {
        (s, Seq::empty())
    }
}

/// What a refused login does, where the text holds the phrase and the
/// session is in play: the pending transfer is dropped and the peer is torn
/// down.
pub open spec fn spec_after_logon_fail(s: SessionView, body: Seq<u8>) -> (
    SessionView,
    Seq<ActionView>,
) {
    if spec_contains(body, spec_logon_fail_marker()) && spec_in_play(s) {
        (
            SessionView { is_redirect: false, phase: Phase::Disconnected, ..s },
            spec_disconnect(s.peer_id),
        )
    } else {
        (s, Seq::empty())
    }
}

/// What a text message does: first the refused login, then the ban, which
/// counts whatever the session was doing.
pub open spec fn spec_text(s: SessionView, body: Seq<u8>) -> (SessionView, Seq<ActionView>) {
    let (s1, a1) = spec_after_logon_fail(s, body);
    if spec_contains(body, spec_ban_marker()) {
        (
            SessionView { is_banned: true, is_running: false, phase: Phase::Disconnected, ..s1 },
            a1 + spec_disconnect(s.peer_id),
        )
    } else {
        (s1, a1)
    }
}

/// What a game packet does to a session in play. A packet shorter than its
/// header is an error. A packet of a kind that is handled makes the session
/// connected, and the kind decides the rest; any other kind changes nothing.
pub open spec fn spec_game_packet(s: SessionView, body: Seq<u8>) -> Result<
    (SessionView, Seq<ActionView>),
    DecodeError,
> {
    if !spec_in_play(s) || s.peer_id is None {
        Ok((s, Seq::empty()))
    } else if body.len() < 56 {
        Err(DecodeError::Truncated)
    } else {
        let pkt = spec_decode_header(body);
        let payload = body.subrange(56, body.len() as int);
        let peer = s.peer_id->Some_0;
        let s1 = SessionView { phase: Phase::Connected, ..s };
        match pkt.packet_type {
            ETankPacketType::NetGamePacketCallFunction => variant_handler::spec_handle(
                s1,
                peer,
                payload,
            ),
            ETankPacketType::NetGamePacketSendMapData => Ok(
                (s1, seq![ActionView::ApplyMapData(payload), ActionView::UpdatePathfinding]),
            ),
            ETankPacketType::NetGamePacketSendInventoryState => Ok(
                (s1, seq![ActionView::ApplyInventoryData(payload)]),
            ),
            ETankPacketType::NetGamePacketPingRequest => Ok(
                (
                    s1,
                    seq![
                        ActionView::Send {
                            peer,
                            data: spec_frame(
                                EPacketType::NetMessageGamePacket,
                                spec_encode(spec_ping_reply(), payload),
                            ),
                        },
                    ],
                ),
            ),
            _ => Ok((s, Seq::empty())),
        }
    }
}

/// What a message of a given kind does. A banned session processes
/// nothing; kinds that need no reaction change nothing.
pub open spec fn spec_handle(s: SessionView, packet_type: EPacketType, body: Seq<u8>) -> Result<
    (SessionView, Seq<ActionView>),
    DecodeError,
> {
    if s.is_banned {
        Ok((s, Seq::empty()))
    } else {
        match packet_type {
            EPacketType::NetMessageServerHello => Ok(spec_server_hello(s)),
            EPacketType::NetMessageGenericText => Ok(spec_text(s, body)),
            EPacketType::NetMessageGameMessage => Ok(spec_text(s, body)),
            EPacketType::NetMessageGamePacket => spec_game_packet(s, body),
            _ => Ok((s, Seq::empty())),
        }
    }
}

/// What a message still in its envelope does: fewer than four bytes are an
/// error, else the tag names the kind and the rest is the body.
pub open spec fn spec_dispatch(s: SessionView, raw: Seq<u8>) -> Result<
    (SessionView, Seq<ActionView>),
    DecodeError,
> {
    if raw.len() < 4 {
        Err(DecodeError::Truncated)
    } else {
        spec_handle(
            s,
            EPacketType::spec_from_u32(spec_u32_at(raw, 0)),
            raw.subrange(4, raw.len() as int),
        )
    }
}

/// A ping is answered once, to the current peer, whatever the ping's own
/// header held: the answer is a game packet whose header is the fixed
/// ping-reply header (net id zero, vectors (64.0, 64.0) and
/// (1000.0, 250.0)) and whose payload is the ping's payload, unchanged.
pub proof fn lemma_ping_request_reply(s: SessionView, body: Seq<u8>)
    requires
        s.wf(),
        !s.is_banned,
        spec_in_play(s),
        body.len() >= 56,
        spec_decode_header(body).packet_type == ETankPacketType::NetGamePacketPingRequest,
    ensures
        ({
            let payload = body.subrange(56, body.len() as int);
            let data = spec_frame(
                EPacketType::NetMessageGamePacket,
                spec_encode(spec_ping_reply(), payload),
            );
            let header = spec_decode_header(data.subrange(4, data.len() as int));
            &&& spec_handle(s, EPacketType::NetMessageGamePacket, body) == Ok::<
                (SessionView, Seq<ActionView>),
                DecodeError,
            >(
                (
                    SessionView { phase: Phase::Connected, ..s },
                    seq![ActionView::Send { peer: s.peer_id->Some_0, data }],
                ),
            )
            &&& data.len() == 60 + payload.len()
            &&& spec_u32_at(data, 0) == EPacketType::NetMessageGamePacket.spec_to_u32()
            &&& header == spec_ping_reply()
            &&& header.packet_type == ETankPacketType::NetGamePacketPingReply
            &&& header.net_id == 0
            &&& header.vector_x == 0x4280_0000
            &&& header.vector_y == 0x4280_0000
            &&& header.vector_x2 == 0x447A_0000
            &&& header.vector_y2 == 0x437A_0000
            &&& data.subrange(60, data.len() as int) == payload
        }),
{
    let payload = body.subrange(56, body.len() as int);
    let encoded = spec_encode(spec_ping_reply(), payload);
    let data = spec_frame(EPacketType::NetMessageGamePacket, encoded);
    lemma_u32_le_write_read(EPacketType::NetMessageGamePacket.spec_to_u32());
    lemma_encode_header_len(spec_ping_reply());
    lemma_encode_decode_round_trip(spec_ping_reply(), payload);
    assert(data.subrange(0, 4) =~= spec_u32_to_le(EPacketType::NetMessageGamePacket.spec_to_u32()));
    assert(data.subrange(4, data.len() as int) =~= encoded);
    assert(data.subrange(60, data.len() as int) =~= payload);
}

/// A text that tells of a ban, and of no refused login to a session in
/// play, bans and stops a session that has a peer and asks exactly once
/// for that peer to be torn down; the pending transfer is left alone.
pub proof fn lemma_ban_marker(s: SessionView, packet_type: EPacketType, body: Seq<u8>)
    requires
        s.wf(),
        !s.is_banned,
        s.peer_id is Some,
        packet_type == EPacketType::NetMessageGenericText || packet_type
            == EPacketType::NetMessageGameMessage,
        spec_contains(body, spec_ban_marker()),
        !(spec_contains(body, spec_logon_fail_marker()) && spec_in_play(s)),
    ensures
        spec_handle(s, packet_type, body) == Ok::<(SessionView, Seq<ActionView>), DecodeError>(
            (
                SessionView {
                    is_banned: true,
                    is_running: false,
                    phase: Phase::Disconnected,
                    ..s
                },
                seq![ActionView::Disconnect { peer: s.peer_id->Some_0 }],
            ),
        ),
{
    assert(Seq::<ActionView>::empty() + spec_disconnect(s.peer_id) =~= seq![
        ActionView::Disconnect { peer: s.peer_id->Some_0 },
    ]);
}

/// A text that tells of a refused login, and of no ban, makes a session in
/// play drop its pending transfer and asks exactly once for the peer to be
/// torn down; the ban flag is left alone.
pub proof fn lemma_logon_fail_marker(s: SessionView, packet_type: EPacketType, body: Seq<u8>)
    requires
        s.wf(),
        !s.is_banned,
        spec_in_play(s),
        packet_type == EPacketType::NetMessageGenericText || packet_type
            == EPacketType::NetMessageGameMessage,
        spec_contains(body, spec_logon_fail_marker()),
        !spec_contains(body, spec_ban_marker()),
    ensures
        spec_handle(s, packet_type, body) == Ok::<(SessionView, Seq<ActionView>), DecodeError>(
            (
                SessionView { is_redirect: false, phase: Phase::Disconnected, ..s },
                seq![ActionView::Disconnect { peer: s.peer_id->Some_0 }],
            ),
        ),
        spec_handle(s, packet_type, body)->Ok_0.0.is_banned == s.is_banned,
{
}

/// A banned session processes nothing: whatever arrives, it stays as it
/// is and nothing is asked of anyone.
pub proof fn lemma_banned_is_terminal(s: SessionView, raw: Seq<u8>)
    requires
        s.is_banned,
        raw.len() >= 4,
    ensures
        spec_dispatch(s, raw) == Ok::<(SessionView, Seq<ActionView>), DecodeError>(
            (s, Seq::empty()),
        ),
{
}

/// A message of a kind that asks for no reaction, and a game packet of a
/// kind that is not handled, change nothing and ask for nothing.
pub proof fn lemma_unhandled_kinds_are_dropped(s: SessionView, packet_type: EPacketType, body: Seq<u8>)
    requires
        s.wf(),
        packet_type != EPacketType::NetMessageServerHello,
        packet_type != EPacketType::NetMessageGenericText,
        packet_type != EPacketType::NetMessageGameMessage,
        packet_type == EPacketType::NetMessageGamePacket ==> body.len() >= 56 && {
            let kind = spec_decode_header(body).packet_type;
            &&& kind != ETankPacketType::NetGamePacketCallFunction
            &&& kind != ETankPacketType::NetGamePacketSendMapData
            &&& kind != ETankPacketType::NetGamePacketSendInventoryState
            &&& kind != ETankPacketType::NetGamePacketPingRequest
        },
    ensures
        spec_handle(s, packet_type, body) == Ok::<(SessionView, Seq<ActionView>), DecodeError>(
            (s, Seq::empty()),
        ),
{
}

/// A game packet shorter than its header, sent to a session in play, is
/// reported as truncated.
pub proof fn lemma_short_game_packet(s: SessionView, body: Seq<u8>)
    requires
        s.wf(),
        !s.is_banned,
        spec_in_play(s),
        body.len() < 56,
    ensures
        spec_handle(s, EPacketType::NetMessageGamePacket, body) == Err::<
            (SessionView, Seq<ActionView>),
            DecodeError,
        >(DecodeError::Truncated),
{
}

/// Builds the header of the answer to a ping.
pub fn ping_reply() -> (r: TankPacketType)
    ensures
        r == spec_ping_reply(),
{
    let mut pkt: TankPacketType = TankPacketType::new();
    pkt.packet_type = ETankPacketType::NetGamePacketPingReply;
    pkt.net_id = 0;
    pkt.unk2 = 0;
    pkt.vector_x = 0x4280_0000;
    pkt.vector_y = 0x4280_0000;
    pkt.vector_x2 = 0x447A_0000;
    pkt.vector_y2 = 0x437A_0000;
    pkt
}

fn no_actions() -> (r: Vec<Action>)
    ensures
        spec_actions(r@) == Seq::<ActionView>::empty(),
{
    let r: Vec<Action> = Vec::new();
    assert(spec_actions(r@) =~= Seq::<ActionView>::empty());
    r
}

fn handle_server_hello(session: &mut Session) -> (r: Vec<Action>)
    requires
        !old(session).is_banned,
        old(session)@.wf(),
    ensures
        final(session)@ == spec_server_hello(old(session)@).0,
        spec_actions(r@) == spec_server_hello(old(session)@).1,
        final(session)@.wf(),
{
    let peer: u32 = match session.peer_id {
        Some(p) => p,
        None => {
            return no_actions();
        },
    };
    if session.phase != Phase::Handshaking {
        return no_actions();
    }
    let body: Vec<u8> = if session.is_redirect {
        redirect_login(&session.login_info)
    } else {
        initial_login(session.token.as_slice())
    };
    let data: Vec<u8> = frame(EPacketType::NetMessageGenericText, body.as_slice());
    session.phase = Phase::Authenticating;
    let mut actions: Vec<Action> = Vec::new();
    actions.push(Action::Send { peer, data });
    assert(spec_actions(actions@) =~= spec_server_hello(old(session)@).1);
    actions
}

fn push_disconnect(actions: &mut Vec<Action>, peer: Option<u32>)
    ensures
        spec_actions(final(actions)@) == spec_actions(old(actions)@) + spec_disconnect(peer),
{
    match peer {
        Some(p) => {
            actions.push(Action::Disconnect { peer: p });
        },
        None => {},
    }
    assert(spec_actions(actions@) =~= spec_actions(old(actions)@) + spec_disconnect(peer));
}

fn handle_text(session: &mut Session, body: &[u8]) -> (r: Vec<Action>)
    requires
        !old(session).is_banned,
        old(session)@.wf(),
    ensures
        final(session)@ == spec_text(old(session)@, body@).0,
        spec_actions(r@) == spec_text(old(session)@, body@).1,
        final(session)@.wf(),
{
    let mut actions: Vec<Action> = no_actions();
    let peer: Option<u32> = session.peer_id;
    let in_play: bool = session.phase == Phase::Authenticating || session.phase
        == Phase::Connected;
    if in_play && contains(body, "logon_fail".as_bytes()) {
        session.is_redirect = false;
        session.phase = Phase::Disconnected;
        push_disconnect(&mut actions, peer);
        assert(spec_actions(actions@) =~= spec_disconnect(peer));
    }
    if contains(body, "currently banned".as_bytes()) {
        session.is_banned = true;
        session.is_running = false;
        session.phase = Phase::Disconnected;
        push_disconnect(&mut actions, peer);
    }
    actions
}

fn handle_game_packet(session: &mut Session, body: &[u8]) -> (r: Result<Vec<Action>, DecodeError>)
    requires
        !old(session).is_banned,
        old(session)@.wf(),
    ensures
        spec_outcome(r, *old(session), *final(session), spec_game_packet(old(session)@, body@)),
        final(session)@.wf(),
{
    let in_play: bool = session.phase == Phase::Authenticating || session.phase
        == Phase::Connected;
    let peer: u32 = match session.peer_id {
        Some(p) => p,
        None => {
            return Ok(no_actions());
        },
    };
    if !in_play {
        return Ok(no_actions());
    }
    let pkt: TankPacketType = match decode_header(body) {
        Ok(p) => p,
        Err(e) => {
            return Err(e);
        },
    };
    let payload: Vec<u8> = copy_range(body, 56, body.len());
    match pkt.packet_type {
        ETankPacketType::NetGamePacketCallFunction => {
            let was: Phase = session.phase;
            session.phase = Phase::Connected;
            let r = variant_handler::handle(session, peer, &pkt, payload.as_slice());
            if r.is_err() {
                session.phase = was;
            }
            r
        },
        ETankPacketType::NetGamePacketSendMapData => {
            session.phase = Phase::Connected;
            let mut actions: Vec<Action> = Vec::new();
            actions.push(Action::ApplyMapData(payload));
            actions.push(Action::UpdatePathfinding);
            assert(spec_actions(actions@) =~= seq![
                ActionView::ApplyMapData(payload@),
                ActionView::UpdatePathfinding,
            ]);
            Ok(actions)
        },
        ETankPacketType::NetGamePacketSendInventoryState => {
            session.phase = Phase::Connected;
            let mut actions: Vec<Action> = Vec::new();
            actions.push(Action::ApplyInventoryData(payload));
            assert(spec_actions(actions@) =~= seq![ActionView::ApplyInventoryData(payload@)]);
            Ok(actions)
        },
        ETankPacketType::NetGamePacketPingRequest => {
            session.phase = Phase::Connected;
            let reply: TankPacketType = ping_reply();
            let encoded: Vec<u8> = encode(&reply, payload.as_slice());
            let data: Vec<u8> = frame(EPacketType::NetMessageGamePacket, encoded.as_slice());
            let mut actions: Vec<Action> = Vec::new();
            actions.push(Action::Send { peer, data });
            assert(spec_actions(actions@) =~= seq![ActionView::Send { peer, data: data@ }]);
            Ok(actions)
        },
        _ => Ok(no_actions()),
    }
}

/// Reacts to one message, given its kind and its body without the
/// envelope tag. On an error the session is left as it was.
pub fn handle(session: &mut Session, packet_type: EPacketType, data: &[u8]) -> (r: Result<
    Vec<Action>,
    DecodeError,
>)
    requires
        old(session)@.wf(),
    ensures
        spec_outcome(r, *old(session), *final(session), spec_handle(old(session)@, packet_type, data@)),
        final(session)@.wf(),
{
    if session.is_banned {
        return Ok(no_actions());
    }
    match packet_type {
        EPacketType::NetMessageServerHello => Ok(handle_server_hello(session)),
        EPacketType::NetMessageGenericText => Ok(handle_text(session, data)),
        EPacketType::NetMessageGameMessage => Ok(handle_text(session, data)),
        EPacketType::NetMessageGamePacket => handle_game_packet(session, data),
        _ => Ok(no_actions()),
    }
}

/// Reacts to one message as the transport delivered it, envelope tag
/// first.
pub fn dispatch(session: &mut Session, raw: &[u8]) -> (r: Result<Vec<Action>, DecodeError>)
    requires
        old(session)@.wf(),
    ensures
        spec_outcome(r, *old(session), *final(session), spec_dispatch(old(session)@, raw@)),
        final(session)@.wf(),
{
    if raw.len() < 4 {
        return Err(DecodeError::Truncated);
    }
    let kind: EPacketType = EPacketType::from_u32(u32_at(raw, 0));
    let body: Vec<u8> = copy_range(raw, 4, raw.len());
    handle(session, kind, body.as_slice())
}

} // verus!
