//! What the login flows compute between their requests: the credentials
//! header, the login form, the token hidden in a login page.

use vstd::prelude::*;
use vstd::string::StringSliceAdditionalSpecFns;
use crate::bytes::push_bytes;
use crate::text_parse::{contains, spec_contains};

verus! {

/// The longest input handed to the Base64 encoder: the length of its
/// output then fits every `usize`.
pub const BASE64_INPUT_MAX: usize = 0x3FFF_FFFF;

/// The standard, padded Base64 text of `input`, as the `base64` crate's
/// `STANDARD` engine writes it.
pub uninterp spec fn spec_base64_standard(input: Seq<u8>) -> Seq<u8>;

/// What the `regex` crate finds for `pattern` in `text`: `None` where the
/// pattern does not compile; else, for the leftmost match, the text that
/// capture group `group` took, or `None` where nothing matches or the group
/// took no part.
pub uninterp spec fn spec_regex_capture(pattern: Seq<char>, group: nat, text: Seq<char>) -> Option<
    Option<Seq<char>>,
>;

/// What the `json` crate reads of member `key` in the JSON text `body`:
/// `None` where `body` is not JSON; else whether the value is an object
/// with such a member, whether the member is null (as a member that is not
/// there is), and the member's text, strings bare and `null` for null.
pub uninterp spec fn spec_json_member(body: Seq<char>, key: Seq<char>) -> Option<
    (bool, bool, Seq<char>),
>;

/// Calls `base64::Engine::encode` on the `STANDARD` engine. Trusted: the
/// result is the Base64 text of the input. The encoder panics only where
/// the output length overflows, which the bound on the input rules out.
#[verifier::external_body]
fn base64_standard(input: &[u8]) -> (r: Vec<u8>)
    requires
        input@.len() <= BASE64_INPUT_MAX,
    ensures
        r@ == spec_base64_standard(input@),
{
    base64::Engine::encode(&base64::engine::general_purpose::STANDARD, input).into_bytes()
}

/// Calls `regex::Regex::new`, then `Regex::captures` and `Captures::get`.
/// Trusted: the result is what the crate finds, a pattern that does not
/// compile giving `None`.
#[verifier::external_body]
fn regex_capture(pattern: &str, group: usize, text: &str) -> (r: Option<Option<String>>)
    ensures
        spec_capture_agrees(r, spec_regex_capture(pattern@, group as nat, text@)),
{
    match regex::Regex::new(pattern) {
        Err(_) => None,
        Ok(re) => Some(re.captures(text).and_then(|c| c.get(group)).map(|m| m.as_str().to_string())),
    }
}

/// Calls `json::parse`, then `JsonValue::has_key`, and on the value
/// indexed by `key`, `is_null` and `to_string`. Trusted: the result holds
/// what the crate gives, a body that does not parse giving `None`.
#[verifier::external_body]
fn json_member(body: &str, key: &str) -> (r: Option<JsonMember>)
    ensures
        spec_member_view(r) == spec_json_member(body@, key@),
{
    match json::parse(body) {
        Err(_) => None,
        Ok(v) => Some(
            JsonMember { present: v.has_key(key), is_null: v[key].is_null(), text: v[key].to_string() },
        ),
    }
}

/// What was read of one member of a reply.
#[derive(Clone, Debug, PartialEq, Eq)]
pub struct JsonMember {
    /// Whether the reply is an object that has the member.
    pub present: bool,
    /// Whether the member is null or not there.
    pub is_null: bool,
    /// The member as text.
    pub text: String,
}

/// What a reading holds, if there is one.
pub open spec fn spec_member_view(r: Option<JsonMember>) -> Option<(bool, bool, Seq<char>)> {
    match r {
        Some(m) => Some((m.present, m.is_null, m.text@)),
        None => None,
    }
}

/// The text of a reading.
pub open spec fn spec_member_text(m: Option<(bool, bool, Seq<char>)>) -> Option<Seq<char>> {
    match m {
        Some(v) => Some(v.2),
        None => None,
    }
}

/// Whether a text and its model are the same, or both missing.
pub open spec fn spec_text_agrees(r: Option<String>, m: Option<Seq<char>>) -> bool {
    match (r, m) {
        (None, None) => true,
        (Some(a), Some(b)) => a@ == b,
        _ => false,
    }
}

/// Whether a search result and its model hold the same text.
pub open spec fn spec_capture_agrees(r: Option<Option<String>>, m: Option<Option<Seq<char>>>) -> bool {
    match (r, m) {
        (None, None) => true,
        (Some(None), Some(None)) => true,
        (Some(Some(a)), Some(Some(b))) => a@ == b,
        _ => false,
    }
}

/// The pattern of the hidden form field that carries the login token.
pub open spec fn spec_token_pattern() -> Seq<char> {
    "name=\"_token\"\\s+type=\"hidden\"\\s+value=\"([^\"]*)\""@
}

/// The token that a search of a login page gave: the first capture group
/// of the leftmost match, if there was one.
pub open spec fn spec_token_of(found: Option<Option<Seq<char>>>) -> Option<Seq<char>> {
    match found {
        Some(Some(t)) => Some(t),
        _ => None,
    }
}

/// Picks the token out of what the search of a login page gave.
pub fn token_from_capture(found: Option<Option<String>>) -> (r: Option<String>)
    ensures
        match found {
            Some(Some(t)) => r == Some(t),
            _ => r is None,
        },
{
    match found {
        Some(Some(t)) => Some(t),
        _ => None,
    }
}

/// Finds the value of the hidden `_token` field in a login page.
pub fn extract_token_from_html(body: &str) -> (r: Option<String>)
    ensures
        match spec_token_of(spec_regex_capture(spec_token_pattern(), 1, body@)) {
            Some(t) => r is Some && r->Some_0@ == t,
            None => r is None,
        },
{
    let found = regex_capture("name=\"_token\"\\s+type=\"hidden\"\\s+value=\"([^\"]*)\"", 1, body);
    token_from_capture(found)
}

/// The text `email:password`.
pub open spec fn spec_credentials(email: Seq<u8>, password: Seq<u8>) -> Seq<u8> {
    email + seq![58u8] + password
}

/// The value of the authorization header that carries the credentials.
pub open spec fn spec_basic_authorization(email: Seq<u8>, password: Seq<u8>) -> Seq<u8> {
    "Basic ".spec_bytes() + spec_base64_standard(spec_credentials(email, password))
}

/// The header value made of the Base64 text of the credentials.
pub fn authorization_from_encoded(encoded: &[u8]) -> (r: Vec<u8>)
    ensures
        r@ == "Basic ".spec_bytes() + encoded@,
{
    prefixed("Basic ", encoded)
}

/// Builds the authorization header for an email and a password; `None`
/// where the two together are longer than the encoder takes.
pub fn basic_authorization(email: &[u8], password: &[u8]) -> (r: Option<Vec<u8>>)
    ensures
        email@.len() + 1 + password@.len() <= BASE64_INPUT_MAX ==> r is Some && r->Some_0@
            == spec_basic_authorization(email@, password@),
        email@.len() + 1 + password@.len() > BASE64_INPUT_MAX ==> r is None,
{
    if email.len() >= BASE64_INPUT_MAX || password.len() > BASE64_INPUT_MAX - 1 - email.len() {
        return None;
    }
    let mut plain: Vec<u8> = Vec::new();
    push_bytes(&mut plain, email);
    plain.push(58u8);
    push_bytes(&mut plain, password);
    assert(plain@ =~= spec_credentials(email@, password@));
    let encoded: Vec<u8> = base64_standard(plain.as_slice());
    Some(authorization_from_encoded(encoded.as_slice()))
}

/// `value` behind a fixed prefix.
pub fn prefixed(prefix: &str, value: &[u8]) -> (r: Vec<u8>)
    ensures
        r@ == prefix.spec_bytes() + value@,
{
    let mut out: Vec<u8> = Vec::new();
    push_bytes(&mut out, prefix.as_bytes());
    assert(out@ =~= prefix.spec_bytes());
    push_bytes(&mut out, value);
    out
}

/// The authorization header that presents a remember-me ticket.
pub fn remember_me_authorization(ticket: &[u8]) -> (r: Vec<u8>)
    ensures
        r@ == "rm_v1 t=".spec_bytes() + ticket@,
{
    prefixed("rm_v1 t=", ticket)
}

/// The authorization header that presents a two-factor ticket.
pub fn two_factor_authorization(ticket: &[u8]) -> (r: Vec<u8>)
    ensures
        r@ == "ubi_2fa_v1 t=".spec_bytes() + ticket@,
{
    prefixed("ubi_2fa_v1 t=", ticket)
}

/// The fields that follow the ticket in the login form.
pub open spec fn spec_login_form_tail() -> Seq<u8> {
    "\nrequestedName|\nf|1\nprotocol|209\ngame_version|4.62\nfz|46297624\nlmode|0\ncbits|1024\nplayer_age|25\nGDPR|1\ncategory|_-5100\ntotalPlaytime|0\nklv|461a6affd0aac154c25c9e867c789ef8c7b5017bbe723d1f86a578ff325b97fe\nhash2|841545814\nmeta|+NlguMhpl2JQ1iP7kyp2Z8W8n9OKDNn57/xI5jJp7/g=\nfhash|-716928004\nrid|020F3BE731F0CF30002CA0AB1843B2A1\nplatformID|13,1,1\ndeviceVersion|0\ncountry|us\nhash|-1829975549\nmac|b4:8c:9d:90:79:cf\nwk|66A6ABCD9753A066E39975DED77852A8\nzf|1390211647".spec_bytes()
}

/// The login form that presents a session ticket.
pub open spec fn spec_ticket_login_form(session: Seq<u8>) -> Seq<u8> {
    "UbiTicket|".spec_bytes() + session + spec_login_form_tail()
}

/// Builds the login form that presents a session ticket.
pub fn ticket_login_form(session: &[u8]) -> (r: Vec<u8>)
    ensures
        r@ == spec_ticket_login_form(session@),
{
    let mut out: Vec<u8> = prefixed("UbiTicket|", session);
    push_bytes(
        &mut out,
        "\nrequestedName|\nf|1\nprotocol|209\ngame_version|4.62\nfz|46297624\nlmode|0\ncbits|1024\nplayer_age|25\nGDPR|1\ncategory|_-5100\ntotalPlaytime|0\nklv|461a6affd0aac154c25c9e867c789ef8c7b5017bbe723d1f86a578ff325b97fe\nhash2|841545814\nmeta|+NlguMhpl2JQ1iP7kyp2Z8W8n9OKDNn57/xI5jJp7/g=\nfhash|-716928004\nrid|020F3BE731F0CF30002CA0AB1843B2A1\nplatformID|13,1,1\ndeviceVersion|0\ncountry|us\nhash|-1829975549\nmac|b4:8c:9d:90:79:cf\nwk|66A6ABCD9753A066E39975DED77852A8\nzf|1390211647".as_bytes(),
    );
    out
}

/// Whether a login page says that too many people are logging in.
pub fn is_throttled(page: &[u8]) -> (r: bool)
    ensures
        r == spec_contains(page@, "too many people".spec_bytes()),
{
    contains(page, "too many people".as_bytes())
}

/// What a reply of the account service asks for next.
#[derive(Clone, Debug, PartialEq, Eq)]
pub enum LoginReply {
    /// The session ticket: the login is done.
    Ticket(String),
    /// A ticket to present in one more request.
    FollowUp(String),
    /// The reply is not JSON.
    Malformed,
}

/// What a reply holds.
pub enum LoginReplyView {
    Ticket(Seq<char>),
    FollowUp(Seq<char>),
    Malformed,
}

impl View for LoginReply {
    type V = LoginReplyView;

    open spec fn view(&self) -> LoginReplyView {
        match *self {
            LoginReply::Ticket(t) => LoginReplyView::Ticket(t@),
            LoginReply::FollowUp(t) => LoginReplyView::FollowUp(t@),
            LoginReply::Malformed => LoginReplyView::Malformed,
        }
    }
}

/// What a reply asks for, given what was read of its follow-up member
/// and of its `ticket` member. A follow-up counts when it is there and,
/// where `needs_value` says so, not null. A reading that is missing makes
/// the reply malformed.
pub open spec fn spec_classify_reply(
    follow_up: Option<(bool, bool, Seq<char>)>,
    ticket: Option<(bool, bool, Seq<char>)>,
    needs_value: bool,
) -> LoginReplyView {
    if follow_up is None || ticket is None {
        LoginReplyView::Malformed
    } else if follow_up->Some_0.0 && !(needs_value && follow_up->Some_0.1) {
        LoginReplyView::FollowUp(follow_up->Some_0.2)
    } else {
        LoginReplyView::Ticket(ticket->Some_0.2)
    }
}

/// What the reply `body` asks for, with `key` as its follow-up member.
pub open spec fn spec_reply(body: Seq<char>, key: Seq<char>, needs_value: bool) -> LoginReplyView {
    spec_classify_reply(spec_json_member(body, key), spec_json_member(body, "ticket"@), needs_value)
}

/// Decides what a reply asks for from what was read of it.
pub fn classify_reply(follow_up: Option<JsonMember>, ticket: Option<JsonMember>, needs_value: bool) -> (r:
    LoginReply)
    ensures
        r@ == spec_classify_reply(
            spec_member_view(follow_up),
            spec_member_view(ticket),
            needs_value,
        ),
{
    match (follow_up, ticket) {
        (Some(f), Some(t)) => {
            if f.present && !(needs_value && f.is_null) {
                LoginReply::FollowUp(f.text)
            } else {
                LoginReply::Ticket(t.text)
            }
        },
        _ => LoginReply::Malformed,
    }
}

/// Reads a reply with `key` as its follow-up member.
pub fn read_reply(body: &str, key: &str, needs_value: bool) -> (r: LoginReply)
    ensures
        r@ == spec_reply(body@, key@, needs_value),
{
    let follow_up = json_member(body, key);
    let ticket = json_member(body, "ticket");
    classify_reply(follow_up, ticket, needs_value)
}

/// Reads the reply to the credentials: a second factor is asked for where
/// the reply holds a two-factor ticket that is not null.
pub fn session_reply(body: &str) -> (r: LoginReply)
    ensures
        r@ == spec_reply(body@, "twoFactorAuthenticationTicket"@, true),
{
    read_reply(body, "twoFactorAuthenticationTicket", true)
}

/// Reads the reply to the second factor: a remember-me ticket, where the
/// reply holds one, is to be presented next.
pub fn second_factor_reply(body: &str) -> (r: LoginReply)
    ensures
        r@ == spec_reply(body@, "rememberMeTicket"@, false),
{
    read_reply(body, "rememberMeTicket", false)
}

/// The text of a reading, if there is one.
pub fn member_text(member: Option<JsonMember>) -> (r: Option<String>)
    ensures
        match member {
            Some(m) => r == Some(m.text),
            None => r is None,
        },
{
    match member {
        Some(m) => Some(m.text),
        None => None,
    }
}

/// Reads the session ticket out of a reply; `None` where the reply is not
/// JSON.
pub fn ticket_reply(body: &str) -> (r: Option<String>)
    ensures
        spec_text_agrees(r, spec_member_text(spec_json_member(body@, "ticket"@))),
{
    member_text(json_member(body, "ticket"))
}

/// Reads the login token out of the last reply; `None` where the reply is
/// not JSON.
pub fn token_reply(body: &str) -> (r: Option<String>)
    ensures
        spec_text_agrees(r, spec_member_text(spec_json_member(body@, "token"@))),
{
    member_text(json_member(body, "token"))
}

} // verus!
