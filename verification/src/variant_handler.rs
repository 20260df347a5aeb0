//! The call router: what a named call from the server does to the session.

use vstd::prelude::*;
use vstd::string::StringSliceAdditionalSpecFns;
use crate::bytes::copy_range;
use crate::session::{
    spec_actions, Action, ActionView, Phase, ServerView, Session, SessionView,
};
use crate::text_parse::{
    bytes_eq, i32_to_decimal, parse_and_store, spec_decimal, spec_split,
};
use crate::types::{DecodeError, TankPacketType};
use crate::variant::{spec_deserialize, VariantList, VariantValue};

verus! {

/// The text of argument `k`; a missing argument or one of another kind is
/// an error.
pub open spec fn spec_text_arg(l: Seq<VariantValue>, k: int) -> Result<Seq<u8>, DecodeError> {
    if 0 <= k < l.len() && l[k] is Text {
        Ok(l[k]->Text_0)
    } else {
        Err(DecodeError::BadArgument)
    }
}

/// The signed value of argument `k`; a missing argument or one of another
/// kind is an error.
pub open spec fn spec_int_arg(l: Seq<VariantValue>, k: int) -> Result<i32, DecodeError> {
    if 0 <= k < l.len() && l[k] is Signed {
        Ok(l[k]->Signed_0)
    } else {
        Err(DecodeError::BadArgument)
    }
}

/// Whether a call carries what a transfer needs: three signed values at
/// positions 1 to 3, a text at 4 with at least three tokens, a text at 6.
pub open spec fn spec_redirect_args_ok(l: Seq<VariantValue>) -> bool {
    &&& spec_int_arg(l, 1) is Ok
    &&& spec_int_arg(l, 2) is Ok
    &&& spec_int_arg(l, 3) is Ok
    &&& spec_text_arg(l, 4) is Ok
    &&& spec_text_arg(l, 6) is Ok
    &&& spec_split(spec_text_arg(l, 4)->Ok_0).len() >= 3
}

/// The transfer target that a call names.
pub open spec fn spec_redirect_server(l: Seq<VariantValue>) -> ServerView {
    let tokens = spec_split(spec_text_arg(l, 4)->Ok_0);
    ServerView {
        ip: tokens[0],
        port: spec_decimal(spec_int_arg(l, 1)->Ok_0 as int),
        token: spec_decimal(spec_int_arg(l, 2)->Ok_0 as int),
        user_id: spec_decimal(spec_int_arg(l, 3)->Ok_0 as int),
        door_id: tokens[1],
        uuid: tokens[2],
    }
}

/// What a decoded call does: the session after it and the requests it
/// makes, or the error that leaves the session as it was. A banned session
/// ignores every call, and every session ignores a call it does not know.
pub open spec fn spec_route(s: SessionView, peer: u32, l: Seq<VariantValue>) -> Result<
    (SessionView, Seq<ActionView>),
    DecodeError,
> {
    if s.is_banned {
        Ok((s, Seq::empty()))
    } else if spec_text_arg(l, 0) is Err {
        Err(DecodeError::BadArgument)
    } else if spec_text_arg(l, 0)->Ok_0 != "OnSendToServer".spec_bytes() {
        Ok((s, Seq::empty()))
    } else if !spec_redirect_args_ok(l) {
        Err(DecodeError::BadArgument)
    } else {
        Ok(
            (
                SessionView {
                    is_redirect: true,
                    phase: Phase::Redirecting,
                    username: spec_text_arg(l, 6)->Ok_0,
                    server: spec_redirect_server(l),
                    ..s
                },
                seq![ActionView::Disconnect { peer }],
            ),
        )
    }
}

/// What a call payload does: it is decoded, then routed.
pub open spec fn spec_handle(s: SessionView, peer: u32, data: Seq<u8>) -> Result<
    (SessionView, Seq<ActionView>),
    DecodeError,
> {
    if s.is_banned {
        Ok((s, Seq::empty()))
    } else {
        match spec_deserialize(data) {
            Err(e) => Err(e),
            Ok(l) => spec_route(s, peer, l),
        }
    }
}

/// Whether a handler's result and the session it left agree with the
/// model: on success the modelled session and requests, on failure the
/// modelled error and the session untouched.
pub open spec fn spec_outcome(
    r: Result<Vec<Action>, DecodeError>,
    before: Session,
    after: Session,
    m: Result<(SessionView, Seq<ActionView>), DecodeError>,
) -> bool {
    match m {
        Ok((s, acts)) => r is Ok && spec_actions(r->Ok_0@) == acts && after@ == s,
        Err(e) => r is Err && r->Err_0 == e && after == before,
    }
}

/// The text of argument `k`.
pub fn text_arg(list: &VariantList, k: usize) -> (r: Result<Vec<u8>, DecodeError>)
    ensures
        match spec_text_arg(list@, k as int) {
            Ok(t) => r is Ok && r->Ok_0@ == t,
            Err(e) => r is Err && r->Err_0 == e,
        },
{
    match list.get(k) {
        Some(v) => v.as_string(),
        None => Err(DecodeError::BadArgument),
    }
}

/// The signed value of argument `k`.
pub fn int_arg(list: &VariantList, k: usize) -> (r: Result<i32, DecodeError>)
    ensures
        r == spec_int_arg(list@, k as int),
{
    match list.get(k) {
        Some(v) => v.as_int32(),
        None => Err(DecodeError::BadArgument),
    }
}

/// Routes a decoded call. The one call known moves the session to another
/// server: it records the target and the user name, marks the transfer as
/// pending and asks once for the current peer to be torn down.
pub fn route(session: &mut Session, peer: u32, list: &VariantList) -> (r: Result<
    Vec<Action>,
    DecodeError,
>)
    ensures
        spec_outcome(r, *old(session), *final(session), spec_route(old(session)@, peer, list@)),
        old(session)@.wf() ==> final(session)@.wf(),
{
    let mut actions: Vec<Action> = Vec::new();
    if session.is_banned {
        assert(spec_actions(actions@) =~= Seq::<ActionView>::empty());
        return Ok(actions);
    }
    let name: Vec<u8> = match text_arg(list, 0) {
        Ok(n) => n,
        Err(e) => {
            return Err(e);
        },
    };
    if !bytes_eq(name.as_slice(), "OnSendToServer".as_bytes()) {
        assert(spec_actions(actions@) =~= Seq::<ActionView>::empty());
        return Ok(actions);
    }
    let port: i32 = match int_arg(list, 1) {
        Ok(v) => v,
        Err(e) => {
            return Err(e);
        },
    };
    let token: i32 = match int_arg(list, 2) {
        Ok(v) => v,
        Err(e) => {
            return Err(e);
        },
    };
    let user_id: i32 = match int_arg(list, 3) {
        Ok(v) => v,
        Err(e) => {
            return Err(e);
        },
    };
    let server_data: Vec<u8> = match text_arg(list, 4) {
        Ok(v) => v,
        Err(e) => {
            return Err(e);
        },
    };
    let username: Vec<u8> = match text_arg(list, 6) {
        Ok(v) => v,
        Err(e) => {
            return Err(e);
        },
    };
    let parsed: Vec<Vec<u8>> = parse_and_store(server_data.as_slice());
    if parsed.len() < 3 {
        return Err(DecodeError::BadArgument);
    }
    let ip: Vec<u8> = copy_range(parsed[0].as_slice(), 0, parsed[0].len());
    let door_id: Vec<u8> = copy_range(parsed[1].as_slice(), 0, parsed[1].len());
    let uuid: Vec<u8> = copy_range(parsed[2].as_slice(), 0, parsed[2].len());
    proof {
        assert(ip@ =~= spec_split(server_data@)[0]);
        assert(door_id@ =~= spec_split(server_data@)[1]);
        assert(uuid@ =~= spec_split(server_data@)[2]);
    }
    session.is_redirect = true;
    session.phase = Phase::Redirecting;
    session.username = username;
    session.server.ip = ip;
    session.server.port = i32_to_decimal(port);
    session.server.token = i32_to_decimal(token);
    session.server.user_id = i32_to_decimal(user_id);
    session.server.door_id = door_id;
    session.server.uuid = uuid;
    actions.push(Action::Disconnect { peer });
    assert(spec_actions(actions@) =~= seq![ActionView::Disconnect { peer }]);
    Ok(actions)
}

/// Decodes the payload of a call packet and routes the call. A payload
/// that does not decode, or a call without the arguments it needs, is an
/// error and changes nothing.
pub fn handle(session: &mut Session, peer: u32, pkt: &TankPacketType, data: &[u8]) -> (r: Result<
    Vec<Action>,
    DecodeError,
>)
    ensures
        spec_outcome(r, *old(session), *final(session), spec_handle(old(session)@, peer, data@)),
        old(session)@.wf() ==> final(session)@.wf(),
{
    if session.is_banned {
        let actions: Vec<Action> = Vec::new();
        assert(spec_actions(actions@) =~= Seq::<ActionView>::empty());
        return Ok(actions);
    }
    match VariantList::deserialize(data) {
        Err(e) => Err(e),
        Ok(list) => route(session, peer, &list),
    }
}

} // verus!
