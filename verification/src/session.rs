//! The record of one connection, and what the dispatcher asks the
//! transport and the state models to do.

use vstd::prelude::*;
use vstd::string::StringSliceAdditionalSpecFns;
use crate::bytes::{copy_range, push_bytes, push_u32_le, spec_u32_to_le};
use crate::text_parse::DELIMITER;
use crate::types::EPacketType;

verus! {

/// Where a session stands in its life.
#[derive(Clone, Copy, Debug, PartialEq, Eq, Structural)]
pub enum Phase {
    /// No server greeting answered yet.
    Handshaking,
    /// The login line went out.
    Authenticating,
    /// Game packets are flowing.
    Connected,
    /// A transfer is pending and the current peer is being torn down.
    Redirecting,
    /// Nothing more is processed until a new peer is set.
    Disconnected,
}

/// The fields of the login line, sent as they are.
#[derive(Clone, Debug, PartialEq, Eq)]
pub struct LoginInfo {
    pub uuid: Vec<u8>,
    pub protocol: Vec<u8>,
    pub fhash: Vec<u8>,
    pub mac: Vec<u8>,
    pub requested_name: Vec<u8>,
    pub hash2: Vec<u8>,
    pub fz: Vec<u8>,
    pub f: Vec<u8>,
    pub player_age: Vec<u8>,
    pub game_version: Vec<u8>,
    pub lmode: Vec<u8>,
    pub cbits: Vec<u8>,
    pub rid: Vec<u8>,
    pub gdpr: Vec<u8>,
    pub hash: Vec<u8>,
    pub category: Vec<u8>,
    pub token: Vec<u8>,
    pub total_playtime: Vec<u8>,
    pub door_id: Vec<u8>,
    pub klv: Vec<u8>,
    pub meta: Vec<u8>,
    pub platform_id: Vec<u8>,
    pub device_version: Vec<u8>,
    pub zf: Vec<u8>,
    pub country: Vec<u8>,
    pub user: Vec<u8>,
    pub wk: Vec<u8>,
}

/// The target of a transfer to another server.
#[derive(Clone, Debug, PartialEq, Eq)]
pub struct Server {
    pub ip: Vec<u8>,
    pub port: Vec<u8>,
    pub token: Vec<u8>,
    pub user_id: Vec<u8>,
    pub door_id: Vec<u8>,
    pub uuid: Vec<u8>,
}

/// What a transfer target holds.
pub struct ServerView {
    pub ip: Seq<u8>,
    pub port: Seq<u8>,
    pub token: Seq<u8>,
    pub user_id: Seq<u8>,
    pub door_id: Seq<u8>,
    pub uuid: Seq<u8>,
}

impl View for Server {
    type V = ServerView;

    open spec fn view(&self) -> ServerView {
        ServerView {
            ip: self.ip@,
            port: self.port@,
            token: self.token@,
            user_id: self.user_id@,
            door_id: self.door_id@,
            uuid: self.uuid@,
        }
    }
}

/// The state of one connection.
#[derive(Clone, Debug, PartialEq, Eq)]
pub struct Session {
    pub peer_id: Option<u32>,
    pub phase: Phase,
    pub is_redirect: bool,
    pub is_banned: bool,
    pub is_running: bool,
    pub username: Vec<u8>,
    pub token: Vec<u8>,
    pub login_info: LoginInfo,
    pub server: Server,
}

/// What a session holds.
pub struct SessionView {
    pub peer_id: Option<u32>,
    pub phase: Phase,
    pub is_redirect: bool,
    pub is_banned: bool,
    pub is_running: bool,
    pub username: Seq<u8>,
    pub token: Seq<u8>,
    pub login_info: LoginInfo,
    pub server: ServerView,
}

impl View for Session {
    type V = SessionView;

    open spec fn view(&self) -> SessionView {
        SessionView {
            peer_id: self.peer_id,
            phase: self.phase,
            is_redirect: self.is_redirect,
            is_banned: self.is_banned,
            is_running: self.is_running,
            username: self.username@,
            token: self.token@,
            login_info: self.login_info,
            server: self.server@,
        }
    }
}

impl SessionView {
    /// A banned session is disconnected and stopped, a session that waits
    /// for its transfer has a transfer target, and a session that talks to
    /// a server has a peer.
    pub open spec fn wf(self) -> bool {
        &&& self.is_banned ==> self.phase == Phase::Disconnected && !self.is_running
        &&& self.phase == Phase::Redirecting ==> self.is_redirect
        &&& (self.phase == Phase::Authenticating || self.phase == Phase::Connected)
            ==> self.peer_id is Some
    }
}

/// One thing for the owner of the transport and of the state models to do.
#[derive(Clone, Debug, PartialEq, Eq)]
pub enum Action {
    /// Send these bytes, envelope tag included, to the peer, reliably.
    Send { peer: u32, data: Vec<u8> },
    /// Ask the transport to tear the peer down; nobody waits for it.
    Disconnect { peer: u32 },
    /// Hand these bytes to the world model.
    ApplyMapData(Vec<u8>),
    /// Let the path finder look at the world again.
    UpdatePathfinding,
    /// Hand these bytes to the inventory model.
    ApplyInventoryData(Vec<u8>),
}

/// What an action holds.
pub enum ActionView {
    Send { peer: u32, data: Seq<u8> },
    Disconnect { peer: u32 },
    ApplyMapData(Seq<u8>),
    UpdatePathfinding,
    ApplyInventoryData(Seq<u8>),
}

impl View for Action {
    type V = ActionView;

    open spec fn view(&self) -> ActionView {
        match *self {
            Action::Send { peer, data } => ActionView::Send { peer, data: data@ },
            Action::Disconnect { peer } => ActionView::Disconnect { peer },
            Action::ApplyMapData(d) => ActionView::ApplyMapData(d@),
            Action::UpdatePathfinding => ActionView::UpdatePathfinding,
            Action::ApplyInventoryData(d) => ActionView::ApplyInventoryData(d@),
        }
    }
}

/// What each of the actions holds.
pub open spec fn spec_actions(v: Seq<Action>) -> Seq<ActionView> {
    Seq::new(v.len(), |k: int| v[k]@)
}

/// The disconnect request for the peer, if there is one.
pub open spec fn spec_disconnect(peer: Option<u32>) -> Seq<ActionView> {
    match peer {
        Some(p) => seq![ActionView::Disconnect { peer: p }],
        None => Seq::empty(),
    }
}

/// A message in its envelope: the kind's tag as four little-endian bytes,
/// then the body.
pub open spec fn spec_frame(kind: EPacketType, body: Seq<u8>) -> Seq<u8> {
    spec_u32_to_le(kind.spec_to_u32()) + body
}

/// One line of a login message: key, delimiter, value, line feed.
pub open spec fn spec_line(key: Seq<u8>, value: Seq<u8>) -> Seq<u8> {
    key + seq![DELIMITER] + value + seq![10u8]
}

/// The login line that answers the first greeting of a server.
pub open spec fn spec_initial_login(token: Seq<u8>) -> Seq<u8> {
    spec_line("protocol".spec_bytes(), "209".spec_bytes()) + spec_line(
        "ltoken".spec_bytes(),
        token,
    ) + spec_line("platformID".spec_bytes(), "0,1,1".spec_bytes())
}

/// The login line that answers the greeting of the server a transfer led
/// to: every field of the login record, in the order the server expects.
pub open spec fn spec_redirect_login(info: LoginInfo) -> Seq<u8> {
    spec_line("UUIDToken".spec_bytes(), info.uuid@)
        + spec_line("protocol".spec_bytes(), info.protocol@)
        + spec_line("fhash".spec_bytes(), info.fhash@)
        + spec_line("mac".spec_bytes(), info.mac@)
        + spec_line("requestedName".spec_bytes(), info.requested_name@)
        + spec_line("hash2".spec_bytes(), info.hash2@)
        + spec_line("fz".spec_bytes(), info.fz@)
        + spec_line("f".spec_bytes(), info.f@)
        + spec_line("player_age".spec_bytes(), info.player_age@)
        + spec_line("game_version".spec_bytes(), info.game_version@)
        + spec_line("lmode".spec_bytes(), info.lmode@)
        + spec_line("cbits".spec_bytes(), info.cbits@)
        + spec_line("rid".spec_bytes(), info.rid@)
        + spec_line("GDPR".spec_bytes(), info.gdpr@)
        + spec_line("hash".spec_bytes(), info.hash@)
        + spec_line("category".spec_bytes(), info.category@)
        + spec_line("token".spec_bytes(), info.token@)
        + spec_line("total_playtime".spec_bytes(), info.total_playtime@)
        + spec_line("door_id".spec_bytes(), info.door_id@)
        + spec_line("klv".spec_bytes(), info.klv@)
        + spec_line("meta".spec_bytes(), info.meta@)
        + spec_line("platformID".spec_bytes(), info.platform_id@)
        + spec_line("deviceVersion".spec_bytes(), info.device_version@)
        + spec_line("zf".spec_bytes(), info.zf@)
        + spec_line("country".spec_bytes(), info.country@)
        + spec_line("user".spec_bytes(), info.user@)
        + spec_line("wk".spec_bytes(), info.wk@)
}

/// Appends one line of a login message.
pub fn push_line(out: &mut Vec<u8>, key: &str, value: &[u8])
    ensures
        final(out)@ == old(out)@ + spec_line(key.spec_bytes(), value@),
{
    let ghost before = out@;
    push_bytes(out, key.as_bytes());
    out.push(DELIMITER);
    push_bytes(out, value);
    out.push(10u8);
    assert(out@ =~= before + spec_line(key.spec_bytes(), value@));
}

/// Builds the first login line.
pub fn initial_login(token: &[u8]) -> (r: Vec<u8>)
    ensures
        r@ == spec_initial_login(token@),
{
    let mut out: Vec<u8> = Vec::new();
    push_line(&mut out, "protocol", "209".as_bytes());
    assert(out@ =~= spec_line("protocol".spec_bytes(), "209".spec_bytes()));
    push_line(&mut out, "ltoken", token);
    push_line(&mut out, "platformID", "0,1,1".as_bytes());
    out
}

/// Builds the login line for the server a transfer led to.
pub fn redirect_login(info: &LoginInfo) -> (r: Vec<u8>)
    ensures
        r@ == spec_redirect_login(*info),
{
    let mut out: Vec<u8> = Vec::new();
    push_line(&mut out, "UUIDToken", info.uuid.as_slice());
    assert(out@ =~= spec_line("UUIDToken".spec_bytes(), info.uuid@));
    push_line(&mut out, "protocol", info.protocol.as_slice());
    push_line(&mut out, "fhash", info.fhash.as_slice());
    push_line(&mut out, "mac", info.mac.as_slice());
    push_line(&mut out, "requestedName", info.requested_name.as_slice());
    push_line(&mut out, "hash2", info.hash2.as_slice());
    push_line(&mut out, "fz", info.fz.as_slice());
    push_line(&mut out, "f", info.f.as_slice());
    push_line(&mut out, "player_age", info.player_age.as_slice());
    push_line(&mut out, "game_version", info.game_version.as_slice());
    push_line(&mut out, "lmode", info.lmode.as_slice());
    push_line(&mut out, "cbits", info.cbits.as_slice());
    push_line(&mut out, "rid", info.rid.as_slice());
    push_line(&mut out, "GDPR", info.gdpr.as_slice());
    push_line(&mut out, "hash", info.hash.as_slice());
    push_line(&mut out, "category", info.category.as_slice());
    push_line(&mut out, "token", info.token.as_slice());
    push_line(&mut out, "total_playtime", info.total_playtime.as_slice());
    push_line(&mut out, "door_id", info.door_id.as_slice());
    push_line(&mut out, "klv", info.klv.as_slice());
    push_line(&mut out, "meta", info.meta.as_slice());
    push_line(&mut out, "platformID", info.platform_id.as_slice());
    push_line(&mut out, "deviceVersion", info.device_version.as_slice());
    push_line(&mut out, "zf", info.zf.as_slice());
    push_line(&mut out, "country", info.country.as_slice());
    push_line(&mut out, "user", info.user.as_slice());
    push_line(&mut out, "wk", info.wk.as_slice());
    out
}

/// Puts a message into its envelope.
pub fn frame(kind: EPacketType, body: &[u8]) -> (r: Vec<u8>)
    ensures
        r@ == spec_frame(kind, body@),
{
    let mut out: Vec<u8> = Vec::new();
    push_u32_le(&mut out, kind.to_u32());
    assert(out@ =~= spec_u32_to_le(kind.spec_to_u32()));
    push_bytes(&mut out, body);
    out
}

/// The session that starts out: running, no peer, no transfer, no name,
/// waiting for a greeting.
pub open spec fn spec_new_session(login_info: LoginInfo, token: Seq<u8>) -> SessionView {
    SessionView {
        peer_id: None,
        phase: Phase::Handshaking,
        is_redirect: false,
        is_banned: false,
        is_running: true,
        username: Seq::empty(),
        token,
        login_info,
        server: ServerView {
            ip: Seq::empty(),
            port: Seq::empty(),
            token: Seq::empty(),
            user_id: Seq::empty(),
            door_id: Seq::empty(),
            uuid: Seq::empty(),
        },
    }
}

impl Session {
    /// A running session with no peer yet, waiting for a server's greeting,
    /// with the login record and session token it will present.
    pub fn new(login_info: LoginInfo, token: Vec<u8>) -> (r: Session)
        ensures
            r@ == spec_new_session(login_info, token@),
            r.token == token,
            r@.wf(),
    {
        Session {
            peer_id: None,
            phase: Phase::Handshaking,
            is_redirect: false,
            is_banned: false,
            is_running: true,
            username: Vec::new(),
            token,
            login_info,
            server: Server {
                ip: Vec::new(),
                port: Vec::new(),
                token: Vec::new(),
                user_id: Vec::new(),
                door_id: Vec::new(),
                uuid: Vec::new(),
            },
        }
    }

    /// Whether the session is a valid one.
    pub fn is_well_formed(&self) -> (r: bool)
        ensures
            r == self@.wf(),
    {
        let in_play: bool = self.phase == Phase::Authenticating || self.phase == Phase::Connected;
        (!self.is_banned || (self.phase == Phase::Disconnected && !self.is_running)) && (self.phase
            != Phase::Redirecting || self.is_redirect) && (!in_play || self.peer_id.is_some())
    }

    /// Takes a fresh peer and waits for its greeting. A banned session
    /// stays as it is.
    pub fn connect(&mut self, peer: u32)
        requires
            old(self)@.wf(),
        ensures
            final(self)@.wf(),
            old(self).is_banned ==> *final(self) == *old(self),
            !old(self).is_banned ==> *final(self) == (Session {
                peer_id: Some(peer),
                phase: Phase::Handshaking,
                ..*old(self)
            }),
    {
        if !self.is_banned {
            self.peer_id = Some(peer);
            self.phase = Phase::Handshaking;
        }
    }

    /// Notes that the transport has torn the peer down: the session has no
    /// peer and processes nothing until it is given a new one.
    pub fn peer_lost(&mut self)
        requires
            old(self)@.wf(),
        ensures
            final(self)@.wf(),
            *final(self) == (Session { peer_id: None, phase: Phase::Disconnected, ..*old(self) }),
    {
        self.peer_id = None;
        self.phase = Phase::Disconnected;
    }

    /// Makes the login record present the pending transfer: its token, user
    /// id, door id and uuid become those of the transfer target. Everything
    /// else stays.
    pub fn adopt_transfer_target(&mut self)
        ensures
            final(self).login_info.token@ == old(self).server.token@,
            final(self).login_info.user@ == old(self).server.user_id@,
            final(self).login_info.door_id@ == old(self).server.door_id@,
            final(self).login_info.uuid@ == old(self).server.uuid@,
            *final(self) == (Session {
                login_info: LoginInfo {
                    token: final(self).login_info.token,
                    user: final(self).login_info.user,
                    door_id: final(self).login_info.door_id,
                    uuid: final(self).login_info.uuid,
                    ..old(self).login_info
                },
                ..*old(self)
            }),
    {
        let token: Vec<u8> = copy_range(self.server.token.as_slice(), 0, self.server.token.len());
        let user: Vec<u8> = copy_range(self.server.user_id.as_slice(), 0, self.server.user_id.len());
        let door_id: Vec<u8> = copy_range(
            self.server.door_id.as_slice(),
            0,
            self.server.door_id.len(),
        );
        let uuid: Vec<u8> = copy_range(self.server.uuid.as_slice(), 0, self.server.uuid.len());
        proof {
            assert(token@ =~= self.server.token@);
            assert(user@ =~= self.server.user_id@);
            assert(door_id@ =~= self.server.door_id@);
            assert(uuid@ =~= self.server.uuid@);
        }
        self.login_info.token = token;
        self.login_info.user = user;
        self.login_info.door_id = door_id;
        self.login_info.uuid = uuid;
    }
}

} // verus!
