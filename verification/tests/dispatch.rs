use growbot::codec::{decode_header, encode};
use growbot::packet_handler::{dispatch, handle, ping_reply};
use growbot::session::{
    frame, initial_login, redirect_login, Action, LoginInfo, Phase, Server, Session,
};
use growbot::types::{DecodeError, EPacketType, ETankPacketType, TankPacketType};
use growbot::variant::{Variant, VariantList};
use growbot::variant_handler;

fn login_info() -> LoginInfo {
    LoginInfo {
        uuid: b"U".to_vec(),
        protocol: b"209".to_vec(),
        fhash: b"-716928004".to_vec(),
        mac: b"b4:8c:9d:90:79:cf".to_vec(),
        requested_name: b"".to_vec(),
        hash2: b"841545814".to_vec(),
        fz: b"46297624".to_vec(),
        f: b"1".to_vec(),
        player_age: b"25".to_vec(),
        game_version: b"4.62".to_vec(),
        lmode: b"1".to_vec(),
        cbits: b"1024".to_vec(),
        rid: b"RID".to_vec(),
        gdpr: b"1".to_vec(),
        hash: b"-1829975549".to_vec(),
        category: b"_-5100".to_vec(),
        token: b"123".to_vec(),
        total_playtime: b"0".to_vec(),
        door_id: b"77".to_vec(),
        klv: b"KLV".to_vec(),
        meta: b"META".to_vec(),
        platform_id: b"0,1,1".to_vec(),
        device_version: b"0".to_vec(),
        zf: b"1390211647".to_vec(),
        country: b"us".to_vec(),
        user: b"456".to_vec(),
        wk: b"WK".to_vec(),
    }
}

fn session_in(phase: Phase) -> Session {
    let mut s = Session::new(login_info(), b"tok".to_vec());
    s.connect(5);
    s.phase = phase;
    s
}

fn game_packet(kind: ETankPacketType, net_id: u32, payload: &[u8]) -> Vec<u8> {
    let mut pkt = TankPacketType::new();
    pkt.packet_type = kind;
    pkt.net_id = net_id;
    pkt.extended_data_length = payload.len() as u32;
    encode(&pkt, payload)
}

fn redirect_call() -> VariantList {
    VariantList {
        items: vec![
            Variant::Text(b"OnSendToServer".to_vec()),
            Variant::Signed(17091),
            Variant::Signed(123),
            Variant::Signed(456),
            Variant::Text(b"1.2.3.4|77|uuid-abc".to_vec()),
            Variant::Signed(1),
            Variant::Text(b"alice".to_vec()),
        ],
    }
}

#[test]
fn new_session_waits_for_a_greeting() {
    let s = Session::new(login_info(), b"tok".to_vec());
    assert_eq!(s.peer_id, None);
    assert_eq!(s.phase, Phase::Handshaking);
    assert!(!s.is_redirect && !s.is_banned && s.is_running);
    assert_eq!(s.token, b"tok".to_vec());
    assert_eq!(s.login_info, login_info());
    assert!(s.username.is_empty());
}

#[test]
fn greeting_is_answered_with_the_first_login_line() {
    let mut s = session_in(Phase::Handshaking);
    let actions = handle(&mut s, EPacketType::NetMessageServerHello, &[]).unwrap();
    let mut expected = vec![2u8, 0, 0, 0];
    expected.extend_from_slice(b"protocol|209\nltoken|tok\nplatformID|0,1,1\n");
    assert_eq!(actions, vec![Action::Send { peer: 5, data: expected }]);
    assert_eq!(s.phase, Phase::Authenticating);
    assert_eq!(initial_login(b"tok"), b"protocol|209\nltoken|tok\nplatformID|0,1,1\n".to_vec());
}

#[test]
fn greeting_after_a_transfer_is_answered_with_the_full_login_line() {
    let mut s = session_in(Phase::Handshaking);
    s.is_redirect = true;
    let actions = handle(&mut s, EPacketType::NetMessageServerHello, &[]).unwrap();
    let line = "UUIDToken|U\nprotocol|209\nfhash|-716928004\nmac|b4:8c:9d:90:79:cf\nrequestedName|\nhash2|841545814\nfz|46297624\nf|1\nplayer_age|25\ngame_version|4.62\nlmode|1\ncbits|1024\nrid|RID\nGDPR|1\nhash|-1829975549\ncategory|_-5100\ntoken|123\ntotal_playtime|0\ndoor_id|77\nklv|KLV\nmeta|META\nplatformID|0,1,1\ndeviceVersion|0\nzf|1390211647\ncountry|us\nuser|456\nwk|WK\n";
    assert_eq!(redirect_login(&login_info()), line.as_bytes().to_vec());
    assert_eq!(
        actions,
        vec![Action::Send { peer: 5, data: frame(EPacketType::NetMessageGenericText, line.as_bytes()) }]
    );
    assert_eq!(s.phase, Phase::Authenticating);
    assert!(s.is_redirect);
}

#[test]
fn greeting_outside_the_handshake_is_ignored() {
    let mut s = session_in(Phase::Connected);
    let before = s.clone();
    assert_eq!(handle(&mut s, EPacketType::NetMessageServerHello, &[]), Ok(vec![]));
    assert_eq!(s, before);
    let mut s = Session::new(login_info(), b"tok".to_vec());
    let before = s.clone();
    assert_eq!(handle(&mut s, EPacketType::NetMessageServerHello, &[]), Ok(vec![]));
    assert_eq!(s, before);
}

#[test]
fn ban_text_stops_the_session() {
    for kind in [EPacketType::NetMessageGenericText, EPacketType::NetMessageGameMessage] {
        let mut s = session_in(Phase::Connected);
        s.is_redirect = true;
        let actions =
            handle(&mut s, kind, b"action|log\nmsg|Sorry, this account is currently banned.").unwrap();
        assert_eq!(actions, vec![Action::Disconnect { peer: 5 }]);
        assert!(s.is_banned);
        assert!(!s.is_running);
        assert!(s.is_redirect);
        assert_eq!(s.phase, Phase::Disconnected);
    }
}

#[test]
fn banned_session_processes_nothing() {
    let mut s = session_in(Phase::Connected);
    handle(&mut s, EPacketType::NetMessageGenericText, b"currently banned").unwrap();
    let before = s.clone();
    let ping = game_packet(ETankPacketType::NetGamePacketPingRequest, 1, &[]);
    assert_eq!(handle(&mut s, EPacketType::NetMessageGamePacket, &ping), Ok(vec![]));
    assert_eq!(handle(&mut s, EPacketType::NetMessageGamePacket, &[1, 2]), Ok(vec![]));
    assert_eq!(handle(&mut s, EPacketType::NetMessageGenericText, b"logon_fail"), Ok(vec![]));
    assert_eq!(handle(&mut s, EPacketType::NetMessageServerHello, &[]), Ok(vec![]));
    s.connect(9);
    assert_eq!(s, before);
}

#[test]
fn refused_login_drops_the_transfer() {
    for phase in [Phase::Authenticating, Phase::Connected] {
        let mut s = session_in(phase);
        s.is_redirect = true;
        let actions =
            handle(&mut s, EPacketType::NetMessageGameMessage, b"action|logon_fail\n").unwrap();
        assert_eq!(actions, vec![Action::Disconnect { peer: 5 }]);
        assert!(!s.is_redirect);
        assert!(!s.is_banned);
        assert!(s.is_running);
        assert_eq!(s.phase, Phase::Disconnected);
    }
    let mut s = session_in(Phase::Handshaking);
    s.is_redirect = true;
    let before = s.clone();
    assert_eq!(handle(&mut s, EPacketType::NetMessageGenericText, b"logon_fail"), Ok(vec![]));
    assert_eq!(s, before);
}

#[test]
fn text_with_both_phrases_asks_twice() {
    let mut s = session_in(Phase::Connected);
    s.is_redirect = true;
    let actions =
        handle(&mut s, EPacketType::NetMessageGenericText, b"logon_fail: currently banned").unwrap();
    assert_eq!(actions, vec![Action::Disconnect { peer: 5 }, Action::Disconnect { peer: 5 }]);
    assert!(s.is_banned && !s.is_running && !s.is_redirect);
}

#[test]
fn plain_text_changes_nothing() {
    let mut s = session_in(Phase::Connected);
    let before = s.clone();
    assert_eq!(handle(&mut s, EPacketType::NetMessageGenericText, b"hello there"), Ok(vec![]));
    assert_eq!(handle(&mut s, EPacketType::NetMessageTrack, b"currently banned"), Ok(vec![]));
    assert_eq!(handle(&mut s, EPacketType::NetMessageError, b""), Ok(vec![]));
    assert_eq!(handle(&mut s, EPacketType::NetMessageClientLogRequest, b"x"), Ok(vec![]));
    assert_eq!(handle(&mut s, EPacketType::NetMessageUnknown, b"x"), Ok(vec![]));
    assert_eq!(s, before);
}

#[test]
fn ping_is_answered_with_the_fixed_reply() {
    let mut s = session_in(Phase::Connected);
    let ping = game_packet(ETankPacketType::NetGamePacketPingRequest, 99, &[1, 2, 3]);
    let actions = handle(&mut s, EPacketType::NetMessageGamePacket, &ping).unwrap();
    assert_eq!(actions.len(), 1);
    let (peer, data) = match &actions[0] {
        Action::Send { peer, data } => (*peer, data.clone()),
        other => panic!("unexpected action {:?}", other),
    };
    assert_eq!(peer, 5);
    assert_eq!(&data[..4], &[4, 0, 0, 0]);
    let header = decode_header(&data[4..]).unwrap();
    assert_eq!(header.packet_type, ETankPacketType::NetGamePacketPingReply);
    assert_eq!(header.net_id, 0);
    assert_eq!(header.unk2, 0);
    assert_eq!(f32::from_bits(header.vector_x), 64.0);
    assert_eq!(f32::from_bits(header.vector_y), 64.0);
    assert_eq!(f32::from_bits(header.vector_x2), 1000.0);
    assert_eq!(f32::from_bits(header.vector_y2), 250.0);
    assert_eq!(header.extended_data_length, 0);
    assert_eq!(header, ping_reply());
    assert_eq!(&data[60..], &[1, 2, 3]);
    assert_eq!(data.len(), 63);
    assert_eq!(s.phase, Phase::Connected);
}

#[test]
fn first_handled_game_packet_makes_the_session_connected() {
    let mut s = session_in(Phase::Authenticating);
    let before = s.clone();
    let pkt = game_packet(ETankPacketType::NetGamePacketState, 1, &[]);
    assert_eq!(handle(&mut s, EPacketType::NetMessageGamePacket, &pkt), Ok(vec![]));
    assert_eq!(s, before);
    let unknown = game_packet(ETankPacketType::Other(200), 1, &[1]);
    assert_eq!(handle(&mut s, EPacketType::NetMessageGamePacket, &unknown), Ok(vec![]));
    assert_eq!(s, before);
    let ping = game_packet(ETankPacketType::NetGamePacketPingRequest, 1, &[]);
    assert_eq!(handle(&mut s, EPacketType::NetMessageGamePacket, &ping).unwrap().len(), 1);
    assert_eq!(s.phase, Phase::Connected);
    let mut s = session_in(Phase::Handshaking);
    let before = s.clone();
    assert_eq!(handle(&mut s, EPacketType::NetMessageGamePacket, &ping), Ok(vec![]));
    assert_eq!(s, before);
}

#[test]
fn map_and_inventory_are_forwarded() {
    let mut s = session_in(Phase::Connected);
    let pkt = game_packet(ETankPacketType::NetGamePacketSendMapData, 1, &[9, 8, 7]);
    assert_eq!(
        handle(&mut s, EPacketType::NetMessageGamePacket, &pkt),
        Ok(vec![Action::ApplyMapData(vec![9, 8, 7]), Action::UpdatePathfinding])
    );
    let pkt = game_packet(ETankPacketType::NetGamePacketSendInventoryState, 1, &[4, 4]);
    assert_eq!(
        handle(&mut s, EPacketType::NetMessageGamePacket, &pkt),
        Ok(vec![Action::ApplyInventoryData(vec![4, 4])])
    );
}

#[test]
fn short_game_packet_is_reported_and_dropped() {
    let mut s = session_in(Phase::Authenticating);
    let before = s.clone();
    assert_eq!(
        handle(&mut s, EPacketType::NetMessageGamePacket, &[22u8; 55]),
        Err(DecodeError::Truncated)
    );
    assert_eq!(s, before);
    assert_eq!(dispatch(&mut s, &[4, 0, 0]), Err(DecodeError::Truncated));
    assert_eq!(s, before);
}

#[test]
fn redirect_call_moves_the_session() {
    let mut s = session_in(Phase::Connected);
    let payload = redirect_call().serialize().unwrap();
    let pkt = game_packet(ETankPacketType::NetGamePacketCallFunction, 0, &payload);
    let mut raw = vec![4u8, 0, 0, 0];
    raw.extend_from_slice(&pkt);
    let actions = dispatch(&mut s, &raw).unwrap();
    assert_eq!(actions, vec![Action::Disconnect { peer: 5 }]);
    assert_eq!(
        s.server,
        Server {
            ip: b"1.2.3.4".to_vec(),
            port: b"17091".to_vec(),
            token: b"123".to_vec(),
            user_id: b"456".to_vec(),
            door_id: b"77".to_vec(),
            uuid: b"uuid-abc".to_vec(),
        }
    );
    assert!(s.is_redirect);
    assert_eq!(s.username, b"alice".to_vec());
    assert_eq!(s.phase, Phase::Redirecting);
    assert!(!s.is_banned && s.is_running);
    s.connect(6);
    assert_eq!(s.peer_id, Some(6));
    assert_eq!(s.phase, Phase::Handshaking);
    assert!(s.is_redirect);
}

#[test]
fn route_takes_the_peer_it_is_given() {
    let mut s = session_in(Phase::Connected);
    let actions = variant_handler::route(&mut s, 42, &redirect_call()).unwrap();
    assert_eq!(actions, vec![Action::Disconnect { peer: 42 }]);
    let mut s = session_in(Phase::Connected);
    let payload = redirect_call().serialize().unwrap();
    let actions = variant_handler::handle(&mut s, 43, &TankPacketType::new(), &payload).unwrap();
    assert_eq!(actions, vec![Action::Disconnect { peer: 43 }]);
    assert_eq!(s.server.port, b"17091".to_vec());
}

#[test]
fn unknown_call_is_ignored() {
    let mut s = session_in(Phase::Connected);
    let before = s.clone();
    let list = VariantList { items: vec![Variant::Text(b"OnConsoleMessage".to_vec()), Variant::Text(b"x".to_vec())] };
    assert_eq!(variant_handler::route(&mut s, 5, &list), Ok(vec![]));
    assert_eq!(s, before);
}

#[test]
fn malformed_call_changes_nothing() {
    let mut bad_calls: Vec<VariantList> = Vec::new();
    bad_calls.push(VariantList { items: vec![] });
    bad_calls.push(VariantList { items: vec![Variant::Signed(1)] });
    for missing in 1..7usize {
        let mut call = redirect_call();
        call.items.truncate(missing);
        bad_calls.push(call);
    }
    for wrong in [1usize, 2, 3] {
        let mut call = redirect_call();
        call.items[wrong] = Variant::Unsigned(1);
        bad_calls.push(call);
    }
    for wrong in [4usize, 6] {
        let mut call = redirect_call();
        call.items[wrong] = Variant::Signed(1);
        bad_calls.push(call);
    }
    let mut call = redirect_call();
    call.items[4] = Variant::Text(b"1.2.3.4|77".to_vec());
    bad_calls.push(call);
    for call in bad_calls {
        let mut s = session_in(Phase::Authenticating);
        let before = s.clone();
        assert_eq!(variant_handler::route(&mut s, 5, &call), Err(DecodeError::BadArgument));
        assert_eq!(s, before);
        let payload = call.serialize().unwrap();
        let pkt = game_packet(ETankPacketType::NetGamePacketCallFunction, 0, &payload);
        assert_eq!(
            handle(&mut s, EPacketType::NetMessageGamePacket, &pkt),
            Err(DecodeError::BadArgument)
        );
        assert_eq!(s, before);
    }
    let mut s = session_in(Phase::Connected);
    let before = s.clone();
    let pkt = game_packet(ETankPacketType::NetGamePacketCallFunction, 0, &[1, 0, 7, 0, 0, 0, 0]);
    assert_eq!(handle(&mut s, EPacketType::NetMessageGamePacket, &pkt), Err(DecodeError::UnknownTag));
    assert_eq!(s, before);
}

#[test]
fn envelope_names_the_kind() {
    let mut s = session_in(Phase::Connected);
    let mut raw = vec![3u8, 0, 0, 0];
    raw.extend_from_slice(b"currently banned");
    assert_eq!(dispatch(&mut s, &raw), Ok(vec![Action::Disconnect { peer: 5 }]));
    assert!(s.is_banned);
    assert_eq!(frame(EPacketType::NetMessageGamePacket, &[1, 2]), vec![4, 0, 0, 0, 1, 2]);
}

#[test]
fn validity_of_a_session() {
    let mut s = session_in(Phase::Connected);
    assert!(s.is_well_formed());
    s.peer_id = None;
    assert!(!s.is_well_formed());
    let mut s = session_in(Phase::Redirecting);
    assert!(!s.is_well_formed());
    s.is_redirect = true;
    assert!(s.is_well_formed());
    let mut s = session_in(Phase::Handshaking);
    s.is_banned = true;
    assert!(!s.is_well_formed());
    s.phase = Phase::Disconnected;
    assert!(!s.is_well_formed());
    s.is_running = false;
    assert!(s.is_well_formed());
}

#[test]
fn lost_peer_leaves_the_session_disconnected() {
    let mut s = session_in(Phase::Connected);
    s.peer_lost();
    assert_eq!(s.peer_id, None);
    assert_eq!(s.phase, Phase::Disconnected);
    assert!(s.is_running && !s.is_banned);
    let before = s.clone();
    let ping = game_packet(ETankPacketType::NetGamePacketPingRequest, 1, &[]);
    assert_eq!(handle(&mut s, EPacketType::NetMessageGamePacket, &ping), Ok(vec![]));
    assert_eq!(s, before);
}

#[test]
fn transfer_target_is_presented_at_the_next_login() {
    let mut s = session_in(Phase::Connected);
    variant_handler::route(&mut s, 5, &redirect_call()).unwrap();
    let mut expected = s.clone();
    s.adopt_transfer_target();
    expected.login_info.token = b"123".to_vec();
    expected.login_info.user = b"456".to_vec();
    expected.login_info.door_id = b"77".to_vec();
    expected.login_info.uuid = b"uuid-abc".to_vec();
    assert_eq!(s, expected);
}
